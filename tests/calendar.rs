use stock_signals::{civil_from_days, epoch_day, format_epoch_date};

#[test]
fn epoch_origin_is_first_of_january_1970() {
    assert_eq!(civil_from_days(0), (1970, 1, 1));
    assert_eq!(format_epoch_date(0), "1970-01-01");
}

#[test]
fn leap_days_are_kept() {
    assert_eq!(format_epoch_date(951_782_400), "2000-02-29");
    assert_eq!(format_epoch_date(1_709_164_800), "2024-02-29");
    assert_eq!(format_epoch_date(1_709_251_200), "2024-03-01");
}

#[test]
fn century_without_leap_day() {
    // 1900 is not a leap year: 1900-02-28 is followed by 1900-03-01.
    assert_eq!(format_epoch_date(-2_203_977_600), "1900-02-28");
    assert_eq!(format_epoch_date(-2_203_891_200), "1900-03-01");
}

#[test]
fn seconds_within_a_day_share_its_date() {
    assert_eq!(format_epoch_date(1_700_000_000), "2023-11-14");
    assert_eq!(format_epoch_date(1_699_920_000), "2023-11-14");
    assert_eq!(format_epoch_date(1_700_006_399), "2023-11-14");
    assert_eq!(format_epoch_date(1_700_006_400), "2023-11-15");
}

#[test]
fn negative_seconds_round_down_to_the_previous_day() {
    assert_eq!(epoch_day(-1), -1);
    assert_eq!(epoch_day(-86_400), -1);
    assert_eq!(epoch_day(-86_401), -2);
    assert_eq!(format_epoch_date(-1), "1969-12-31");
    assert_eq!(civil_from_days(-365), (1969, 1, 1));
}

#[test]
fn distant_years() {
    assert_eq!(format_epoch_date(253_402_300_799), "9999-12-31");
    assert_eq!(format_epoch_date(-62_167_219_200), "0-01-01");
    assert_eq!(format_epoch_date(-62_167_219_201), "-1-12-31");
    assert_eq!(civil_from_days(2_932_896), (9999, 12, 31));
}

#[test]
fn extreme_timestamps_do_not_overflow() {
    let (_, m, d) = civil_from_days(epoch_day(i64::MAX));
    assert!((1..=12).contains(&m) && (1..=31).contains(&d));
    let (_, m, d) = civil_from_days(epoch_day(i64::MIN));
    assert!((1..=12).contains(&m) && (1..=31).contains(&d));
    let (_, m, d) = civil_from_days(i64::MIN);
    assert!((1..=12).contains(&m) && (1..=31).contains(&d));
}
