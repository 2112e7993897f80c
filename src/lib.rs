//! Daily quote retrieval and oversold-signal analysis for stock tickers.
//!
//! The verified core: symbol and request construction, the retry policy of
//! the quote client, normalization of the upstream chart document into a
//! dense series, calendar dates from epoch seconds, and the batch bookkeeping
//! that keeps exactly one result per requested ticker.
pub mod agent;
pub mod batch;
pub mod calendar;
pub mod request;
pub mod series;
pub mod signal;
mod text;

pub use agent::{get_random_user_agent, user_agent_for, USER_AGENT_COUNT};
pub use calendar::{civil_from_days, epoch_day, format_epoch_date, DAYS_PER_ERA, SECONDS_PER_DAY};
pub use request::{
    after_failure, backoff_ms, chart_url, classify_status, normalize_symbol, ErrorKind, RetryStep,
    BACKOFF_STEP_MS, MAX_ATTEMPTS,
};
pub use series::{
    extract_series, fill_nulls, format_dates, HistoricalData, YahooAdjClose, YahooChart,
    YahooIndicators, YahooMeta, YahooQuote, YahooResponse, YahooResult,
};
pub use signal::{
    compose_result, degraded_result, insufficient_data, AnalysisResult, BollingerPosition,
    Comparisons, Readings, MIN_CLOSES, OSCILLATOR_PERIOD,
};
pub use batch::{
    jitter_ms, settle_analyses, settle_fetches, ANALYZE_CONCURRENCY, FETCH_CONCURRENCY,
    JITTER_MIN_MS, JITTER_SPAN_MS,
};
