use vstd::prelude::*;

use crate::request::{error_tag, ErrorKind};
use crate::series::HistoricalData;

verus! {

/// Where the latest adjusted close stands against the Bollinger bands.
#[derive(Clone, Copy, Debug, PartialEq, Eq, Structural)]
pub enum BollingerPosition {
    Below,
    Inside,
    Above,
}

impl BollingerPosition {
    pub open spec fn label(self) -> Seq<char> {
        match self {
            BollingerPosition::Below => "below"@,
            BollingerPosition::Inside => "inside"@,
            BollingerPosition::Above => "above"@,
        }
    }

    /// `below`, `inside` or `above`.
    pub fn as_str(&self) -> (r: &'static str)
        ensures
            r@ == self.label(),
    {
        match self {
            BollingerPosition::Below => "below",
            BollingerPosition::Inside => "inside",
            BollingerPosition::Above => "above",
        }
    }
}

/// The analysis of one ticker, prices of type `P`. A result with an error
/// carries `zero` in every indicator field.
#[derive(Clone, Debug)]
pub struct AnalysisResult<P> {
    pub ticker: String,
    pub current_price: P,
    pub rsi: P,
    pub mfi: P,
    pub bollinger_position: BollingerPosition,
    pub bollinger_lower: P,
    pub bollinger_middle: P,
    pub bollinger_upper: P,
    pub triple_signal: bool,
    pub error: Option<String>,
}

/// The indicator values computed for a series.
#[derive(Clone, Copy, Debug)]
pub struct Readings<P> {
    pub rsi: P,
    pub mfi: P,
    pub lower: P,
    pub middle: P,
    pub upper: P,
}

/// How the readings compare with the oversold threshold and the latest
/// adjusted close with the bands.
#[derive(Clone, Copy, Debug, PartialEq, Eq, Structural)]
pub struct Comparisons {
    pub rsi_below_threshold: bool,
    pub mfi_below_threshold: bool,
    pub close_at_or_below_lower: bool,
    pub close_at_or_above_upper: bool,
}

/// Closes that the indicators need: the Bollinger window.
pub const MIN_CLOSES: usize = 20;

/// The RSI and MFI look-back.
pub const OSCILLATOR_PERIOD: usize = 14;

/// `r` reports `err` for `ticker` at `price`, every indicator `zero`.
pub open spec fn is_degraded<P>(
    r: AnalysisResult<P>,
    ticker: Seq<char>,
    price: P,
    zero: P,
    err: ErrorKind,
) -> bool {
    &&& r.ticker@ == ticker
    &&& r.current_price == price
    &&& r.rsi == zero
    &&& r.mfi == zero
    &&& r.bollinger_position == BollingerPosition::Inside
    &&& r.bollinger_lower == zero
    &&& r.bollinger_middle == zero
    &&& r.bollinger_upper == zero
    &&& !r.triple_signal
    &&& r.error is Some
    &&& r.error->0@ == error_tag(err)
}

/// Below the lower band takes precedence over above the upper one.
pub open spec fn position_of(c: Comparisons) -> BollingerPosition {
    if c.close_at_or_below_lower {
        BollingerPosition::Below
    } else if c.close_at_or_above_upper {
        BollingerPosition::Above
    } else {
        BollingerPosition::Inside
    }
}

/// Oversold on all three indicators at once.
pub open spec fn triple_of(c: Comparisons) -> bool {
    c.rsi_below_threshold && c.mfi_below_threshold && c.close_at_or_below_lower
}

/// The last entry, or `zero` for an empty column.
pub open spec fn last_or<P>(xs: Seq<P>, zero: P) -> P {
    if xs.len() > 0 { xs.last() } else { zero }
}

/// The result that reports `err` for `ticker`: `current_price` as given,
/// every indicator `zero`, position inside, no signal.
pub fn degraded_result<P: Copy>(ticker: String, current_price: P, zero: P, err: ErrorKind) -> (r: AnalysisResult<P>)
    ensures
        r.ticker == ticker,
        is_degraded(r, ticker@, current_price, zero, err),
{
    AnalysisResult {
        ticker,
        current_price,
        rsi: zero,
        mfi: zero,
        bollinger_position: BollingerPosition::Inside,
        bollinger_lower: zero,
        bollinger_middle: zero,
        bollinger_upper: zero,
        triple_signal: false,
        error: Some(err.tag()),
    }
}

/// The composer's guard: with fewer than twenty closes, the degraded result
/// that reports insufficient data at the last close; otherwise `None`, and
/// the indicators may be computed.
pub fn insufficient_data<P: Copy>(ticker: &str, series: &HistoricalData<P>, zero: P) -> (r: Option<AnalysisResult<P>>)
    ensures
        r is Some <==> series.closes@.len() < MIN_CLOSES,
        r is Some ==> is_degraded(
            r->0,
            ticker@,
            last_or(series.closes@, zero),
            zero,
            ErrorKind::InsufficientData,
        ),
{
    let n = series.closes.len();
    if n >= MIN_CLOSES {
        return None;
    }
    let price = if n > 0 { series.closes[n - 1] } else { zero };
    Some(degraded_result(String::from_str(ticker), price, zero, ErrorKind::InsufficientData))
}

/// The analysis record of a ticker whose indicators were computed.
pub fn compose_result<P: Copy>(
    ticker: String,
    current_price: P,
    readings: Readings<P>,
    cmp: Comparisons,
) -> (r: AnalysisResult<P>)
    ensures
        r.ticker@ == ticker@,
        r.current_price == current_price,
        r.rsi == readings.rsi,
        r.mfi == readings.mfi,
        r.bollinger_lower == readings.lower,
        r.bollinger_middle == readings.middle,
        r.bollinger_upper == readings.upper,
        r.bollinger_position == position_of(cmp),
        r.triple_signal == triple_of(cmp),
        r.error is None,
{
    let position = if cmp.close_at_or_below_lower {
        BollingerPosition::Below
    } else if cmp.close_at_or_above_upper {
        BollingerPosition::Above
    } else {
        BollingerPosition::Inside
    };
    AnalysisResult {
        ticker,
        current_price,
        rsi: readings.rsi,
        mfi: readings.mfi,
        bollinger_position: position,
        bollinger_lower: readings.lower,
        bollinger_middle: readings.middle,
        bollinger_upper: readings.upper,
        triple_signal: cmp.rsi_below_threshold && cmp.mfi_below_threshold
            && cmp.close_at_or_below_lower,
        error: None,
    }
}

} // verus!
