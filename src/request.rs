use vstd::prelude::*;

use crate::text::{decimal, push_decimal, string_from_chars};

verus! {

/// Upstream class-share convention: every `.` of a symbol becomes `-`
/// (`BRK.B` is requested as `BRK-B`).
pub open spec fn dashed(s: Seq<char>) -> Seq<char> {
    s.map_values(|c: char| if c == '.' { '-' } else { c })
}

/// The chart request for a symbol: six months of daily bars with adjusted
/// closes.
pub open spec fn chart_url_text(ticker: Seq<char>) -> Seq<char> {
    "https://query1.finance.yahoo.com/v8/finance/chart/"@ + dashed(ticker)
        + "?range=6mo&interval=1d&includeAdjustedClose=true"@
}

/// The symbol as the upstream source spells it.
pub fn normalize_symbol(ticker: &str) -> (r: String)
    ensures
        r@ == dashed(ticker@),
{
    let n = ticker.unicode_len();
    let mut out: Vec<char> = Vec::new();
    let mut i: usize = 0;
    while i < n
        invariant
            n == ticker@.len(),
            i <= n,
            out@ == dashed(ticker@.subrange(0, i as int)),
        decreases n - i,
    {
        let c = ticker.get_char(i);
        out.push(if c == '.' { '-' } else { c });
        i = i + 1;
        assert(out@ =~= dashed(ticker@.subrange(0, i as int)));
    }
    assert(ticker@.subrange(0, n as int) =~= ticker@);
    string_from_chars(&out)
}

/// The URL of the chart request for `ticker`.
pub fn chart_url(ticker: &str) -> (r: String)
    ensures
        r@ == chart_url_text(ticker@),
{
    let symbol = normalize_symbol(ticker);
    let mut url = String::from_str("https://query1.finance.yahoo.com/v8/finance/chart/");
    url.append(symbol.as_str());
    url.append("?range=6mo&interval=1d&includeAdjustedClose=true");
    url
}

/// Why a ticker produced no analysis.
#[derive(Clone, Copy, Debug, PartialEq, Eq, Structural)]
pub enum ErrorKind {
    /// The source answered HTTP 429.
    RateLimited,
    /// The source answered another status outside 2xx.
    HttpError(u16),
    /// The request did not complete.
    NetworkError,
    /// The body was not a chart document, or the document holds no usable
    /// series (no result, no timestamps, no quote block, or columns of
    /// unequal length).
    ParseError,
    /// Fewer closes than the indicators need.
    InsufficientData,
    /// The worker for the ticker failed unexpectedly.
    TaskFault,
}

/// The text that a degraded result carries for `e`.
pub open spec fn error_tag(e: ErrorKind) -> Seq<char> {
    match e {
        ErrorKind::RateLimited => "API_RATE_LIMIT"@,
        ErrorKind::HttpError(s) => "HTTP_ERROR_"@ + decimal(s as nat),
        ErrorKind::NetworkError => "NETWORK_ERROR"@,
        ErrorKind::ParseError => "PARSE_ERROR"@,
        ErrorKind::InsufficientData => "Not enough data"@,
        ErrorKind::TaskFault => "TASK_FAULT"@,
    }
}

/// A fresh attempt may succeed after a transport, status or parse failure;
/// too short a series, or a failed worker, stays so.
pub open spec fn retryable(e: ErrorKind) -> bool {
    match e {
        ErrorKind::RateLimited | ErrorKind::HttpError(_) | ErrorKind::NetworkError
        | ErrorKind::ParseError => true,
        _ => false,
    }
}

impl ErrorKind {
    pub fn tag(&self) -> (r: String)
        ensures
            r@ == error_tag(*self),
    {
        match self {
            ErrorKind::RateLimited => String::from_str("API_RATE_LIMIT"),
            ErrorKind::HttpError(s) => {
                let mut digits: Vec<char> = Vec::new();
                push_decimal(&mut digits, *s as u64);
                let digits = string_from_chars(&digits);
                let mut r = String::from_str("HTTP_ERROR_");
                r.append(digits.as_str());
                r
            },
            ErrorKind::NetworkError => String::from_str("NETWORK_ERROR"),
            ErrorKind::ParseError => String::from_str("PARSE_ERROR"),
            ErrorKind::InsufficientData => String::from_str("Not enough data"),
            ErrorKind::TaskFault => String::from_str("TASK_FAULT"),
        }
    }

    pub fn is_retryable(&self) -> (r: bool)
        ensures
            r == retryable(*self),
    {
        match self {
            ErrorKind::RateLimited | ErrorKind::HttpError(_) | ErrorKind::NetworkError
            | ErrorKind::ParseError => true,
            _ => false,
        }
    }
}

/// What an HTTP status means for an attempt: 2xx goes on to the body, 429
/// is rate limiting, anything else an HTTP error.
pub open spec fn status_outcome(status: u16) -> Result<(), ErrorKind> {
    if 200 <= status <= 299 {
        Ok(())
    } else if status == 429 {
        Err(ErrorKind::RateLimited)
    } else {
        Err(ErrorKind::HttpError(status))
    }
}

pub fn classify_status(status: u16) -> (r: Result<(), ErrorKind>)
    ensures
        r == status_outcome(status),
{
    if 200 <= status && status <= 299 {
        Ok(())
    } else if status == 429 {
        Err(ErrorKind::RateLimited)
    } else {
        Err(ErrorKind::HttpError(status))
    }
}

/// Attempts per ticker before the last error stands.
pub const MAX_ATTEMPTS: u32 = 3;

/// Milliseconds to wait per earlier attempt before the next one.
pub const BACKOFF_STEP_MS: u64 = 500;

/// The wait before attempt number `attempt` (counted from 1): nothing before
/// the first, then 500 ms more for each attempt already made.
pub fn backoff_ms(attempt: u32) -> (r: u64)
    requires
        attempt >= 1,
    ensures
        r == 500 * (attempt - 1),
{
    BACKOFF_STEP_MS * ((attempt - 1) as u64)
}

/// What the quote client does after a failed attempt.
#[derive(Clone, Copy, Debug, PartialEq, Eq, Structural)]
pub enum RetryStep {
    /// Make attempt `attempt` after waiting `delay_ms`.
    Retry { attempt: u32, delay_ms: u64 },
    /// Stop and report this error for the ticker.
    GiveUp(ErrorKind),
}

/// The decision after attempt number `attempt` failed with `err`.
/// `structural` marks a body that parsed as JSON but holds no usable series:
/// another request would answer the same, so that failure is final. Any
/// other retryable error is tried again while fewer than three attempts
/// were made; otherwise the error stands.
pub fn after_failure(attempt: u32, err: ErrorKind, structural: bool) -> (r: RetryStep)
    requires
        1 <= attempt <= MAX_ATTEMPTS,
    ensures
        retryable(err) && !structural && attempt < MAX_ATTEMPTS ==> r == (RetryStep::Retry {
            attempt: (attempt + 1) as u32,
            delay_ms: (500 * attempt) as u64,
        }),
        !(retryable(err) && !structural && attempt < MAX_ATTEMPTS) ==> r == RetryStep::GiveUp(err),
{
    if err.is_retryable() && !structural && attempt < MAX_ATTEMPTS {
        RetryStep::Retry { attempt: attempt + 1, delay_ms: backoff_ms(attempt + 1) }
    } else {
        RetryStep::GiveUp(err)
    }
}

} // verus!
