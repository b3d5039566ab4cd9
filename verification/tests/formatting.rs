use iota_wallet_tui::formatting::{format_balance, format_iota, format_nanos, parse_iota_amount, parse_u64};

#[test]
fn format_balance_keeps_two_decimals() {
    assert_eq!(format_balance(1_500_000_000, 9), "1.50");
    assert_eq!(format_balance(0, 9), "0.00");
    assert_eq!(format_balance(100, 2), "1.00");
}

#[test]
fn format_balance_trims_trailing_zeros() {
    assert_eq!(format_balance(1_234_567_890, 9), "1.23456789");
    assert_eq!(format_balance(105, 2), "1.05");
}

#[test]
fn format_balance_without_decimals() {
    assert_eq!(format_balance(5, 0), "5");
    assert_eq!(format_balance(123_456, 0), "123456");
}

#[test]
fn format_balance_single_decimal() {
    assert_eq!(format_balance(7, 1), "0.7");
    assert_eq!(format_balance(10, 1), "1.0");
}

#[test]
fn format_iota_whole_and_fractional() {
    assert_eq!(format_iota(2_000_000_000), "2");
    assert_eq!(format_iota(1_500_000_000), "1.5");
    assert_eq!(format_iota(1), "0.000000001");
    assert_eq!(format_iota(0), "0");
}

#[test]
fn format_nanos_appends_unit() {
    assert_eq!(format_nanos(1_500_000_000), "1.5 IOTA");
    assert_eq!(format_nanos(0), "0 IOTA");
    assert_eq!(format_nanos(3_000_000_000), "3 IOTA");
    assert_eq!(format_nanos(1_250_000_000), format!("{} IOTA", format_iota(1_250_000_000)));
}

#[test]
fn parse_iota_amount_decimal_and_whole() {
    assert_eq!(parse_iota_amount("1.5"), Some(1_500_000_000));
    assert_eq!(parse_iota_amount("2"), Some(2_000_000_000));
    assert_eq!(parse_iota_amount("0.000000001"), Some(1));
    assert_eq!(parse_iota_amount(".5"), Some(500_000_000));
}

#[test]
fn parse_iota_amount_rejects_text() {
    assert_eq!(parse_iota_amount("abc"), None);
    assert_eq!(parse_iota_amount(""), None);
    assert_eq!(parse_iota_amount("1.2.3"), None);
}

#[test]
fn parse_iota_amount_negative_is_zero() {
    assert_eq!(parse_iota_amount("-1"), Some(0));
}

#[test]
fn parse_iota_amount_saturates() {
    assert_eq!(parse_iota_amount("100000000000"), Some(u64::MAX));
}

#[test]
fn parse_reads_back_format_iota() {
    for n in [0u64, 1, 999_999_999, 1_000_000_000, 123_456_789_012, u64::MAX] {
        assert_eq!(parse_iota_amount(&format_iota(n as u128)), Some(n));
    }
}

#[test]
fn parse_u64_digits() {
    assert_eq!(parse_u64("42"), Some(42));
    assert_eq!(parse_u64("4x"), None);
}
