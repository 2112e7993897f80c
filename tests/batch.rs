use stock_signals::{
    degraded_result, jitter_ms, settle_analyses, settle_fetches, ErrorKind, HistoricalData,
};

fn tiny_series(price: f64) -> HistoricalData<f64> {
    HistoricalData {
        dates: vec!["2024-01-02".to_string()],
        opens: vec![price],
        highs: vec![price],
        lows: vec![price],
        closes: vec![price],
        adj_closes: vec![price],
        volumes: vec![1],
    }
}

#[test]
fn one_fetch_outcome_per_ticker_in_order() {
    let outcomes = vec![
        Some(Ok(tiny_series(1.0))),
        None,
        Some(Err(ErrorKind::RateLimited)),
        Some(Ok(tiny_series(4.0))),
    ];
    let r = settle_fetches(outcomes);
    assert_eq!(r.len(), 4);
    assert_eq!(r[0].as_ref().unwrap().closes, vec![1.0]);
    assert!(matches!(r[1], Err(ErrorKind::TaskFault)));
    assert!(matches!(r[2], Err(ErrorKind::RateLimited)));
    assert_eq!(r[3].as_ref().unwrap().closes, vec![4.0]);
    assert!(settle_fetches::<f64>(vec![]).is_empty());
}

#[test]
fn one_analysis_per_ticker_even_when_every_worker_fails() {
    let tickers: Vec<String> = ["A", "B", "C"].iter().map(|s| s.to_string()).collect();
    let r = settle_analyses(tickers, vec![None, None, None], 0.0);
    assert_eq!(r.len(), 3);
    for (res, name) in r.iter().zip(["A", "B", "C"]) {
        assert_eq!(res.ticker, name);
        assert_eq!(res.error.as_deref(), Some("TASK_FAULT"));
        assert_eq!(res.rsi, 0.0);
    }
}

#[test]
fn worker_results_are_kept() {
    let tickers: Vec<String> = ["A", "B"].iter().map(|s| s.to_string()).collect();
    let limited = degraded_result("A".to_string(), 0.0, 0.0, ErrorKind::RateLimited);
    let r = settle_analyses(tickers, vec![Some(limited), None], 0.0);
    assert_eq!(r.len(), 2);
    assert_eq!(r[0].error.as_deref(), Some("API_RATE_LIMIT"));
    assert_eq!(r[1].ticker, "B");
    assert_eq!(r[1].error.as_deref(), Some("TASK_FAULT"));
}

#[test]
fn jitter_stays_in_range() {
    assert_eq!(jitter_ms(0), 10);
    assert_eq!(jitter_ms(39), 49);
    assert_eq!(jitter_ms(40), 10);
    assert_eq!(jitter_ms(u64::MAX), 10 + u64::MAX % 40);
    for d in 0..200 {
        let j = jitter_ms(d);
        assert!((10..50).contains(&j));
    }
}

#[test]
fn records_are_named_after_the_requested_ticker() {
    let tickers: Vec<String> = ["BRK.B", "MSFT"].iter().map(|s| s.to_string()).collect();
    let worker_record = degraded_result("BRK-B".to_string(), 0.0, 0.0, ErrorKind::ParseError);
    let r = settle_analyses(tickers, vec![Some(worker_record), None], 0.0);
    assert_eq!(r[0].ticker, "BRK.B");
    assert_eq!(r[0].error.as_deref(), Some("PARSE_ERROR"));
    assert_eq!(r[1].ticker, "MSFT");
}

#[test]
fn one_rate_limited_ticker_leaves_the_others_alone() {
    let tickers: Vec<String> = ["A", "B", "C"].iter().map(|s| s.to_string()).collect();
    let fine_a = degraded_result("A".to_string(), 12.5, 0.0, ErrorKind::InsufficientData);
    let limited = degraded_result("B".to_string(), 0.0, 0.0, ErrorKind::RateLimited);
    let fine_c = degraded_result("C".to_string(), 40.0, 0.0, ErrorKind::InsufficientData);
    let r = settle_analyses(tickers, vec![Some(fine_a), Some(limited), Some(fine_c)], 0.0);
    assert_eq!(r.len(), 3);
    assert_eq!(r[1].error.as_deref(), Some("API_RATE_LIMIT"));
    assert_eq!((r[1].rsi, r[1].mfi, r[1].bollinger_lower, r[1].bollinger_middle, r[1].bollinger_upper), (0.0, 0.0, 0.0, 0.0, 0.0));
    assert!(!r[1].triple_signal);
    assert_eq!((r[0].ticker.as_str(), r[0].current_price), ("A", 12.5));
    assert_eq!((r[2].ticker.as_str(), r[2].current_price), ("C", 40.0));
    assert_eq!(r[0].error.as_deref(), Some("Not enough data"));
}

#[test]
fn every_fetch_failing_keeps_every_entry() {
    let outcomes: Vec<Option<Result<HistoricalData<f64>, ErrorKind>>> = vec![
        Some(Err(ErrorKind::RateLimited)),
        Some(Err(ErrorKind::HttpError(500))),
        Some(Err(ErrorKind::NetworkError)),
        Some(Err(ErrorKind::ParseError)),
        None,
    ];
    let r = settle_fetches(outcomes);
    assert_eq!(r.len(), 5);
    assert!(r.iter().all(|x| x.is_err()));
    assert!(matches!(r[4], Err(ErrorKind::TaskFault)));
}
