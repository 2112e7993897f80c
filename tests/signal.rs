use stock_signals::{
    compose_result, degraded_result, insufficient_data, BollingerPosition, Comparisons,
    ErrorKind, HistoricalData, Readings,
};

fn series(closes: Vec<f64>) -> HistoricalData<f64> {
    let n = closes.len();
    HistoricalData {
        dates: vec!["2024-01-01".to_string(); n],
        opens: closes.clone(),
        highs: closes.clone(),
        lows: closes.clone(),
        adj_closes: closes.iter().map(|c| c * 0.5).collect(),
        closes,
        volumes: vec![100; n],
    }
}

#[test]
fn short_series_gives_not_enough_data() {
    let s = series((0..19).map(|i| 100.0 + i as f64).collect());
    let r = insufficient_data("MSFT", &s, 0.0).expect("nineteen closes are too few");
    assert_eq!(r.ticker, "MSFT");
    assert_eq!(r.current_price, 118.0);
    assert_eq!(r.error.as_deref(), Some("Not enough data"));
    assert_eq!(r.rsi, 0.0);
    assert_eq!(r.mfi, 0.0);
    assert_eq!(r.bollinger_lower, 0.0);
    assert_eq!(r.bollinger_middle, 0.0);
    assert_eq!(r.bollinger_upper, 0.0);
    assert!(!r.triple_signal);
    assert_eq!(r.bollinger_position.as_str(), "inside");
}

#[test]
fn empty_series_reports_zero_price() {
    let r = insufficient_data("X", &series(vec![]), 0.0).unwrap();
    assert_eq!(r.current_price, 0.0);
    assert_eq!(r.bollinger_position, BollingerPosition::Inside);
}

#[test]
fn twenty_closes_are_enough() {
    let s = series((0..20).map(|i| 100.0 + i as f64).collect());
    assert!(insufficient_data("MSFT", &s, 0.0).is_none());
}

#[test]
fn degraded_results_zero_every_indicator() {
    let r = degraded_result("T".to_string(), 0.0, 0.0, ErrorKind::HttpError(502));
    assert_eq!(r.error.as_deref(), Some("HTTP_ERROR_502"));
    assert_eq!((r.rsi, r.mfi, r.bollinger_upper), (0.0, 0.0, 0.0));
    assert_eq!(r.bollinger_position, BollingerPosition::Inside);
}

fn readings() -> Readings<f64> {
    Readings { rsi: 25.0, mfi: 20.0, lower: 90.0, middle: 100.0, upper: 110.0 }
}

#[test]
fn triple_signal_needs_all_three() {
    let all = Comparisons {
        rsi_below_threshold: true,
        mfi_below_threshold: true,
        close_at_or_below_lower: true,
        close_at_or_above_upper: false,
    };
    let r = compose_result("KO".to_string(), 89.0, readings(), all);
    assert!(r.triple_signal);
    assert_eq!(r.bollinger_position, BollingerPosition::Below);
    assert_eq!(r.bollinger_position.as_str(), "below");
    assert!(r.error.is_none());
    assert_eq!((r.rsi, r.mfi, r.bollinger_lower, r.bollinger_middle, r.bollinger_upper), (25.0, 20.0, 90.0, 100.0, 110.0));
    let no_mfi = Comparisons { mfi_below_threshold: false, ..all };
    assert!(!compose_result("KO".to_string(), 89.0, readings(), no_mfi).triple_signal);
    let no_band = Comparisons { close_at_or_below_lower: false, ..all };
    let r = compose_result("KO".to_string(), 95.0, readings(), no_band);
    assert!(!r.triple_signal);
    assert_eq!(r.bollinger_position, BollingerPosition::Inside);
}

#[test]
fn position_above_upper_band() {
    let c = Comparisons {
        rsi_below_threshold: false,
        mfi_below_threshold: false,
        close_at_or_below_lower: false,
        close_at_or_above_upper: true,
    };
    let r = compose_result("KO".to_string(), 120.0, readings(), c);
    assert_eq!(r.bollinger_position, BollingerPosition::Above);
    assert_eq!(r.bollinger_position.as_str(), "above");
    assert_eq!(r.current_price, 120.0);
}
