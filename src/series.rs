use vstd::prelude::*;

use crate::calendar::{format_epoch_date, is_date_text_of, lemma_date_text_unique};
use crate::request::ErrorKind;

verus! {

/// One quote block of the chart document: per-field nullable columns,
/// index `i` of each describing the same trading day.
#[derive(Clone, Debug)]
pub struct YahooQuote<P> {
    pub open: Vec<Option<P>>,
    pub high: Vec<Option<P>>,
    pub low: Vec<Option<P>>,
    pub close: Vec<Option<P>>,
    pub volume: Vec<Option<u64>>,
}

/// One adjusted-close block of the chart document.
#[derive(Clone, Debug)]
pub struct YahooAdjClose<P> {
    pub adjclose: Vec<Option<P>>,
}

#[derive(Clone, Debug)]
pub struct YahooIndicators<P> {
    pub quote: Vec<YahooQuote<P>>,
    pub adjclose: Option<Vec<YahooAdjClose<P>>>,
}

#[derive(Clone, Debug)]
pub struct YahooMeta<P> {
    pub currency: Option<String>,
    pub symbol: String,
    pub regular_market_price: Option<P>,
    pub previous_close: Option<P>,
}

/// One entry of the chart document's result list.
#[derive(Clone, Debug)]
pub struct YahooResult<P> {
    pub meta: YahooMeta<P>,
    pub timestamp: Option<Vec<i64>>,
    pub indicators: YahooIndicators<P>,
}

#[derive(Clone, Debug)]
pub struct YahooChart<P> {
    pub result: Option<Vec<YahooResult<P>>>,
}

/// The chart document that the upstream source answers with, prices of
/// type `P`.
#[derive(Clone, Debug)]
pub struct YahooResponse<P> {
    pub chart: YahooChart<P>,
}

/// A dense daily series: every column has one entry per trading day.
#[derive(Clone, Debug)]
pub struct HistoricalData<P> {
    pub dates: Vec<String>,
    pub opens: Vec<P>,
    pub highs: Vec<P>,
    pub lows: Vec<P>,
    pub closes: Vec<P>,
    pub adj_closes: Vec<P>,
    pub volumes: Vec<u64>,
}

impl<P> HistoricalData<P> {
    /// All columns have the same length.
    pub open spec fn well_formed(&self) -> bool {
        let n = self.dates@.len();
        &&& self.opens@.len() == n
        &&& self.highs@.len() == n
        &&& self.lows@.len() == n
        &&& self.closes@.len() == n
        &&& self.adj_closes@.len() == n
        &&& self.volumes@.len() == n
    }
}

/// A missing entry becomes `zero`.
pub open spec fn fill<T>(o: Option<T>, zero: T) -> T {
    match o {
        Some(v) => v,
        None => zero,
    }
}

pub open spec fn filled<T>(xs: Seq<Option<T>>, zero: T) -> Seq<T> {
    xs.map_values(|o: Option<T>| fill(o, zero))
}

/// The first entry of the result list, if any.
pub open spec fn first_result<P>(resp: YahooResponse<P>) -> Option<YahooResult<P>> {
    match resp.chart.result {
        Some(v) => if v@.len() > 0 { Some(v@[0]) } else { None },
        None => None,
    }
}

/// The adjusted-close column: that of the first adjusted-close block, or
/// the close column where the document has none.
pub open spec fn adj_column<P>(r: YahooResult<P>) -> Seq<Option<P>> {
    match r.indicators.adjclose {
        Some(v) => if v@.len() > 0 { v@[0].adjclose@ } else { r.indicators.quote@[0].close@ },
        None => r.indicators.quote@[0].close@,
    }
}

/// The document holds a series: a first result with timestamps and a
/// quote block, all columns as long as the timestamps.
pub open spec fn has_series<P>(resp: YahooResponse<P>) -> bool {
    match first_result(resp) {
        Some(r) => {
            &&& r.timestamp is Some
            &&& r.indicators.quote@.len() > 0
            &&& {
                let n = r.timestamp->0@.len();
                let q = r.indicators.quote@[0];
                &&& q.open@.len() == n
                &&& q.high@.len() == n
                &&& q.low@.len() == n
                &&& q.close@.len() == n
                &&& q.volume@.len() == n
                &&& adj_column(r).len() == n
            }
        },
        None => false,
    }
}

/// `h` is the series that document `resp` holds, with missing prices
/// replaced by `zero` and missing volumes by 0.
pub open spec fn series_of<P>(h: HistoricalData<P>, resp: YahooResponse<P>, zero: P) -> bool {
    let r = first_result(resp)->0;
    let ts = r.timestamp->0@;
    let q = r.indicators.quote@[0];
    &&& h.dates@.len() == ts.len()
    &&& forall|i: int| 0 <= i < ts.len() ==> is_date_text_of(#[trigger] h.dates@[i]@, ts[i] as int)
    &&& h.opens@ == filled(q.open@, zero)
    &&& h.highs@ == filled(q.high@, zero)
    &&& h.lows@ == filled(q.low@, zero)
    &&& h.closes@ == filled(q.close@, zero)
    &&& h.adj_closes@ == filled(adj_column(r), zero)
    &&& h.volumes@ == filled(q.volume@, 0u64)
}

/// The column with each missing entry replaced by `zero`, in place and in
/// order: nothing is dropped or interpolated.
pub fn fill_nulls<T: Copy>(xs: &Vec<Option<T>>, zero: T) -> (r: Vec<T>)
    ensures
        r@ == filled(xs@, zero),
{
    let mut out: Vec<T> = Vec::new();
    let mut i: usize = 0;
    while i < xs.len()
        invariant
            i <= xs@.len(),
            out@ == filled(xs@.subrange(0, i as int), zero),
        decreases xs@.len() - i,
    {
        let v = match xs[i] {
            Some(v) => v,
            None => zero,
        };
        out.push(v);
        i = i + 1;
        assert(out@ =~= filled(xs@.subrange(0, i as int), zero));
    }
    assert(xs@.subrange(0, xs@.len() as int) =~= xs@);
    out
}

/// The calendar date text of each epoch-seconds timestamp.
pub fn format_dates(ts: &Vec<i64>) -> (r: Vec<String>)
    ensures
        r@.len() == ts@.len(),
        forall|i: int| 0 <= i < ts@.len() ==> is_date_text_of(#[trigger] r@[i]@, ts@[i] as int),
{
    let mut out: Vec<String> = Vec::new();
    let mut i: usize = 0;
    while i < ts.len()
        invariant
            i <= ts@.len(),
            out@.len() == i,
            forall|j: int| 0 <= j < i ==> is_date_text_of(#[trigger] out@[j]@, ts@[j] as int),
        decreases ts@.len() - i,
    {
        out.push(format_epoch_date(ts[i]));
        i = i + 1;
    }
    out
}

/// The dense series that the chart document holds. Fails with
/// `ParseError` exactly when the document holds none: no result, no
/// timestamps, no quote block, or columns of unequal length.
pub fn extract_series<P: Copy>(resp: &YahooResponse<P>, zero: P) -> (r: Result<HistoricalData<P>, ErrorKind>)
    ensures
        match r {
            Ok(h) => has_series(*resp) && series_of(h, *resp, zero) && h.well_formed(),
            Err(e) => !has_series(*resp) && e == ErrorKind::ParseError,
        },
{
    let results = match &resp.chart.result {
        Some(v) => v,
        None => return Err(ErrorKind::ParseError),
    };
    if results.len() == 0 {
        return Err(ErrorKind::ParseError);
    }
    let first = &results[0];
    let ts = match &first.timestamp {
        Some(t) => t,
        None => return Err(ErrorKind::ParseError),
    };
    if first.indicators.quote.len() == 0 {
        return Err(ErrorKind::ParseError);
    }
    let quote = &first.indicators.quote[0];
    let adj = match &first.indicators.adjclose {
        Some(blocks) => if blocks.len() > 0 { &blocks[0].adjclose } else { &quote.close },
        None => &quote.close,
    };
    let n = ts.len();
    if quote.open.len() != n || quote.high.len() != n || quote.low.len() != n
        || quote.close.len() != n || quote.volume.len() != n || adj.len() != n {
        return Err(ErrorKind::ParseError);
    }
    let h = HistoricalData {
        dates: format_dates(ts),
        opens: fill_nulls(&quote.open, zero),
        highs: fill_nulls(&quote.high, zero),
        lows: fill_nulls(&quote.low, zero),
        closes: fill_nulls(&quote.close, zero),
        adj_closes: fill_nulls(adj, zero),
        volumes: fill_nulls(&quote.volume, 0u64),
    };
    Ok(h)
}

/// Every entry present.
pub open spec fn present<T>(xs: Seq<T>) -> Seq<Option<T>> {
    xs.map_values(|v: T| Some(v))
}

/// The date texts of a series, as character sequences.
pub open spec fn date_texts<P>(h: HistoricalData<P>) -> Seq<Seq<char>> {
    h.dates@.map_values(|s: String| s@)
}

proof fn lemma_fill_present<T>(xs: Seq<T>, zero: T)
    ensures
        filled(present(xs), zero) == xs,
{
    assert(filled(present(xs), zero) =~= xs);
}

/// Normalizing is idempotent: a document with the same timestamps whose
/// columns are those of an already normalized series, with no entry
/// missing, normalizes to that same series.
pub proof fn lemma_normalize_idempotent<P>(
    resp: YahooResponse<P>,
    h: HistoricalData<P>,
    again: YahooResponse<P>,
    h2: HistoricalData<P>,
    zero: P,
)
    requires
        has_series(resp),
        series_of(h, resp, zero),
        has_series(again),
        first_result(again)->0.timestamp->0@ == first_result(resp)->0.timestamp->0@,
        first_result(again)->0.indicators.quote@[0].open@ == present(h.opens@),
        first_result(again)->0.indicators.quote@[0].high@ == present(h.highs@),
        first_result(again)->0.indicators.quote@[0].low@ == present(h.lows@),
        first_result(again)->0.indicators.quote@[0].close@ == present(h.closes@),
        first_result(again)->0.indicators.quote@[0].volume@ == present(h.volumes@),
        adj_column(first_result(again)->0) == present(h.adj_closes@),
        series_of(h2, again, zero),
    ensures
        date_texts(h2) == date_texts(h),
        h2.opens@ == h.opens@,
        h2.highs@ == h.highs@,
        h2.lows@ == h.lows@,
        h2.closes@ == h.closes@,
        h2.adj_closes@ == h.adj_closes@,
        h2.volumes@ == h.volumes@,
{
    lemma_fill_present(h.opens@, zero);
    lemma_fill_present(h.highs@, zero);
    lemma_fill_present(h.lows@, zero);
    lemma_fill_present(h.closes@, zero);
    lemma_fill_present(h.adj_closes@, zero);
    lemma_fill_present(h.volumes@, 0u64);
    let ts = first_result(resp)->0.timestamp->0@;
    assert forall|i: int| 0 <= i < ts.len() implies h2.dates@[i]@ == h.dates@[i]@ by {
        lemma_date_text_unique(h2.dates@[i]@, h.dates@[i]@, ts[i] as int);
    }
    assert(date_texts(h2) =~= date_texts(h));
}

} // verus!
