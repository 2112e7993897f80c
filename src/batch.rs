use vstd::prelude::*;

use crate::request::ErrorKind;
use crate::series::HistoricalData;
use crate::signal::{degraded_result, is_degraded, AnalysisResult};

verus! {

/// Raw series requests in flight at once.
pub const FETCH_CONCURRENCY: usize = 2;

/// Analysis requests in flight at once.
pub const ANALYZE_CONCURRENCY: usize = 4;

/// Shortest start delay of a worker.
pub const JITTER_MIN_MS: u64 = 10;

/// Width of the range that start delays are drawn from.
pub const JITTER_SPAN_MS: u64 = 40;

/// The start delay that random draw `draw` gives: in `[10, 50)` ms.
pub fn jitter_ms(draw: u64) -> (r: u64)
    ensures
        r == JITTER_MIN_MS + draw % JITTER_SPAN_MS,
        JITTER_MIN_MS <= r < JITTER_MIN_MS + JITTER_SPAN_MS,
{
    JITTER_MIN_MS + draw % JITTER_SPAN_MS
}

/// What a fetch worker's outcome stands for: its series or error, or
/// `TaskFault` where the worker failed (`None`).
pub open spec fn settled_fetch<P>(o: Option<Result<HistoricalData<P>, ErrorKind>>) -> Result<HistoricalData<P>, ErrorKind> {
    match o {
        Some(r) => r,
        None => Err(ErrorKind::TaskFault),
    }
}

/// What an analysis worker's outcome stands for under the ticker it was
/// started for: its result, named after that ticker, or a degraded result
/// that reports `TaskFault` for the ticker.
pub open spec fn settles_analysis<P>(r: AnalysisResult<P>, o: Option<AnalysisResult<P>>, ticker: String, zero: P) -> bool {
    &&& r.ticker == ticker
    &&& match o {
        Some(a) => r == (AnalysisResult { ticker: ticker, ..a }),
        None => is_degraded(r, ticker@, zero, zero, ErrorKind::TaskFault),
    }
}

/// One outcome per requested ticker, in request order, each worker's own or
/// `TaskFault`: as many results as tickers.
pub fn settle_fetches<P>(outcomes: Vec<Option<Result<HistoricalData<P>, ErrorKind>>>) -> (r: Vec<Result<HistoricalData<P>, ErrorKind>>)
    ensures
        r@.len() == outcomes@.len(),
        forall|i: int| 0 <= i < r@.len() ==> #[trigger] r@[i] == settled_fetch(outcomes@[i]),
{
    let ghost orig = outcomes@;
    let ghost n = orig.len();
    let mut pending = outcomes;
    let mut reversed: Vec<Result<HistoricalData<P>, ErrorKind>> = Vec::new();
    while pending.len() > 0
        invariant
            pending@ == orig.subrange(0, pending@.len() as int),
            n == orig.len(),
            reversed@.len() + pending@.len() == n,
            forall|j: int| 0 <= j < reversed@.len() ==> #[trigger] reversed@[j] == settled_fetch(orig[n - 1 - j]),
        decreases pending@.len(),
    {
        let o = pending.pop().unwrap();
        let settled = match o {
            Some(res) => res,
            None => Err(ErrorKind::TaskFault),
        };
        reversed.push(settled);
    }
    let mut out: Vec<Result<HistoricalData<P>, ErrorKind>> = Vec::new();
    while reversed.len() > 0
        invariant
            n == orig.len(),
            out@.len() + reversed@.len() == n,
            forall|j: int| 0 <= j < reversed@.len() ==> #[trigger] reversed@[j] == settled_fetch(orig[n - 1 - j]),
            forall|j: int| 0 <= j < out@.len() ==> #[trigger] out@[j] == settled_fetch(orig[j]),
        decreases reversed@.len(),
    {
        let res = reversed.pop().unwrap();
        out.push(res);
    }
    out
}

/// One result per requested ticker, in request order, each named after its
/// ticker: the worker's own, or a degraded one that reports `TaskFault`.
pub fn settle_analyses<P: Copy>(tickers: Vec<String>, outcomes: Vec<Option<AnalysisResult<P>>>, zero: P) -> (r: Vec<AnalysisResult<P>>)
    requires
        tickers@.len() == outcomes@.len(),
    ensures
        r@.len() == tickers@.len(),
        forall|i: int| 0 <= i < r@.len() ==> settles_analysis(#[trigger] r@[i], outcomes@[i], tickers@[i], zero),
{
    let ghost orig = outcomes@;
    let ghost names = tickers@;
    let ghost n = orig.len();
    let mut pending = outcomes;
    let mut names_left = tickers;
    let mut reversed: Vec<AnalysisResult<P>> = Vec::new();
    while pending.len() > 0
        invariant
            pending@ == orig.subrange(0, pending@.len() as int),
            names_left@ == names.subrange(0, pending@.len() as int),
            n == orig.len(),
            n == names.len(),
            reversed@.len() + pending@.len() == n,
            forall|j: int| 0 <= j < reversed@.len() ==> settles_analysis(#[trigger] reversed@[j], orig[n - 1 - j], names[n - 1 - j], zero),
        decreases pending@.len(),
    {
        let o = pending.pop().unwrap();
        let ticker = names_left.pop().unwrap();
        let settled = match o {
            Some(a) => AnalysisResult { ticker, ..a },
            None => degraded_result(ticker, zero, zero, ErrorKind::TaskFault),
        };
        reversed.push(settled);
    }
    let mut out: Vec<AnalysisResult<P>> = Vec::new();
    while reversed.len() > 0
        invariant
            n == orig.len(),
            n == names.len(),
            out@.len() + reversed@.len() == n,
            forall|j: int| 0 <= j < reversed@.len() ==> settles_analysis(#[trigger] reversed@[j], orig[n - 1 - j], names[n - 1 - j], zero),
            forall|j: int| 0 <= j < out@.len() ==> settles_analysis(#[trigger] out@[j], orig[j], names[j], zero),
        decreases reversed@.len(),
    {
        let a = reversed.pop().unwrap();
        out.push(a);
    }
    out
}

/// A batch answers every ticker once, whatever fails: as many settled
/// outcomes as tickers in both roles, the analyses named after the tickers
/// in request order, and each failure kept as a failure (an `Err` when
/// fetching, a record with an error when analyzing).
pub proof fn lemma_batch_answers_every_ticker<P>(
    tickers: Seq<String>,
    fetched: Seq<Option<Result<HistoricalData<P>, ErrorKind>>>,
    fetch_results: Seq<Result<HistoricalData<P>, ErrorKind>>,
    analyzed: Seq<Option<AnalysisResult<P>>>,
    analyses: Seq<AnalysisResult<P>>,
    zero: P,
)
    requires
        fetched.len() == tickers.len(),
        analyzed.len() == tickers.len(),
        fetch_results.len() == fetched.len(),
        forall|i: int| 0 <= i < fetch_results.len() ==> #[trigger] fetch_results[i] == settled_fetch(fetched[i]),
        analyses.len() == tickers.len(),
        forall|i: int| 0 <= i < analyses.len() ==> settles_analysis(#[trigger] analyses[i], analyzed[i], tickers[i], zero),
    ensures
        fetch_results.len() == tickers.len(),
        analyses.map_values(|a: AnalysisResult<P>| a.ticker) == tickers,
        forall|i: int| 0 <= i < tickers.len() && !(fetched[i] matches Some(Ok(_))) ==> #[trigger] fetch_results[i] is Err,
        forall|i: int| 0 <= i < tickers.len() && !(analyzed[i] matches Some(a) && a.error is None) ==> #[trigger] analyses[i].error is Some,
{
    assert(analyses.map_values(|a: AnalysisResult<P>| a.ticker) =~= tickers);
}

} // verus!
