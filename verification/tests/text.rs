use ffrenc::text::{
    decimal, format_age, format_min_sec, format_percent, format_seconds, log_file_name,
};

#[test]
fn decimal_numerals() {
    assert_eq!(decimal(0), "0");
    assert_eq!(decimal(7), "7");
    assert_eq!(decimal(10), "10");
    assert_eq!(decimal(1234567890), "1234567890");
    assert_eq!(decimal(u64::MAX), "18446744073709551615");
}

#[test]
fn decimal_agrees_with_the_standard_library() {
    for n in 0..3000u64 {
        assert_eq!(decimal(n), n.to_string());
    }
}

#[test]
fn percent_text() {
    assert_eq!(format_percent(0), "0.0%");
    assert_eq!(format_percent(5), "0.5%");
    assert_eq!(format_percent(333), "33.3%");
    assert_eq!(format_percent(1000), "100.0%");
}

#[test]
fn seconds_text_rounds_to_tenths() {
    assert_eq!(format_seconds(0), "0.0s");
    assert_eq!(format_seconds(49_999_999), "0.0s");
    assert_eq!(format_seconds(50_000_000), "0.1s");
    assert_eq!(format_seconds(1_250_000_000), "1.3s");
    assert_eq!(format_seconds(12_340_000_000), "12.3s");
    assert_eq!(format_seconds(u64::MAX), "18446744073.7s");
}

#[test]
fn age_text_rounds_to_seconds() {
    assert_eq!(format_age(0), "T-0");
    assert_eq!(format_age(499_999_999), "T-0");
    assert_eq!(format_age(500_000_000), "T-1");
    assert_eq!(format_age(12_400_000_000), "T-12");
    assert_eq!(format_age(u64::MAX), "T-18446744074");
}

#[test]
fn minutes_and_seconds() {
    assert_eq!(format_min_sec(0), "0m 0s");
    assert_eq!(format_min_sec(59), "0m 59s");
    assert_eq!(format_min_sec(60), "1m 0s");
    assert_eq!(format_min_sec(187), "3m 7s");
    assert_eq!(format_min_sec(3600), "60m 0s");
}

#[test]
fn log_file_names() {
    assert_eq!(log_file_name(0), "0_log.json");
    assert_eq!(log_file_name(1_700_000_000), "1700000000_log.json");
}
