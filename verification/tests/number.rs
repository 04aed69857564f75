use telemetry_overlay::number::{parse_amount, parse_count, parse_percentage, parse_reading};
use telemetry_overlay::units::{push_signed_three_decimals, push_two_decimals};

#[test]
fn readings_in_thousandths() {
    assert_eq!(parse_reading("0"), Some(0));
    assert_eq!(parse_reading("2.0"), Some(2_000));
    assert_eq!(parse_reading("16.0934"), Some(16_093));
    assert_eq!(parse_reading("-3.25"), Some(-3_250));
    assert_eq!(parse_reading("+1.5"), Some(1_500));
    assert_eq!(parse_reading("007"), Some(7_000));
    assert_eq!(parse_reading("12.3456789"), Some(12_346));
    assert_eq!(parse_reading("0.001"), Some(1));
    assert_eq!(parse_reading("-0.001"), Some(-1));
    assert_eq!(parse_reading("-0"), Some(0));
}

#[test]
fn a_point_needs_a_digit_on_one_side() {
    assert_eq!(parse_reading(".5"), Some(500));
    assert_eq!(parse_reading("5."), Some(5_000));
    assert_eq!(parse_reading("-.5"), Some(-500));
    assert_eq!(parse_reading("."), None);
    assert_eq!(parse_reading("-."), None);
    assert_eq!(parse_reading("+."), None);
}

#[test]
fn the_fourth_decimal_rounds() {
    assert_eq!(parse_reading("1.2344"), Some(1_234));
    assert_eq!(parse_reading("1.2345"), Some(1_235));
    assert_eq!(parse_reading("1.23449999"), Some(1_234));
    assert_eq!(parse_reading("-1.2345"), Some(-1_235));
    assert_eq!(parse_reading("0.9995"), Some(1_000));
    assert_eq!(parse_reading("1.99950"), Some(2_000));
}

#[test]
fn what_is_no_numeral_is_refused() {
    for text in ["", "-", "+", "abc", "1e3", "1.2.3", "1,5", " 1", "1 ", "--1", "+-1", "1-", "NaN", "inf", "٣"] {
        assert_eq!(parse_reading(text), None, "{:?}", text);
        assert_eq!(parse_amount(text), None, "{:?}", text);
    }
}

#[test]
fn readings_stay_in_range() {
    assert_eq!(parse_reading("2147483.647"), Some(i32::MAX));
    assert_eq!(parse_reading("2147483.648"), None);
    assert_eq!(parse_reading("2147483.6474"), Some(i32::MAX));
    assert_eq!(parse_reading("2147483.6475"), None);
    assert_eq!(parse_reading("-2147483.648"), Some(i32::MIN));
    assert_eq!(parse_reading("-2147483.649"), None);
    assert_eq!(parse_reading("99999999999999999999999999999999"), None);
    assert_eq!(parse_reading("-99999999999999999999999999999999.5"), None);
    assert_eq!(parse_reading("00000000000000000000000000000001.5"), Some(1_500));
}

#[test]
fn amounts_are_not_negative() {
    assert_eq!(parse_amount("30"), Some(30_000));
    assert_eq!(parse_amount("29.97"), Some(29_970));
    assert_eq!(parse_amount("+1.2"), Some(1_200));
    assert_eq!(parse_amount("0"), Some(0));
    assert_eq!(parse_amount("-0.0"), Some(0));
    assert_eq!(parse_amount("-0.0004"), Some(0));
    assert_eq!(parse_amount("-0.001"), None);
    assert_eq!(parse_amount("-1"), None);
    assert_eq!(parse_amount("4294967.295"), Some(u32::MAX));
    assert_eq!(parse_amount("4294967.296"), None);
    assert_eq!(parse_amount("10000000"), None);
}

#[test]
fn counts() {
    assert_eq!(parse_count("15"), Some(15));
    assert_eq!(parse_count("+20"), Some(20));
    assert_eq!(parse_count("0"), Some(0));
    assert_eq!(parse_count("255"), Some(255));
    assert_eq!(parse_count("0255"), Some(255));
    assert_eq!(parse_count("256"), None);
    assert_eq!(parse_count("99999999999999999999999"), None);
    assert_eq!(parse_count("-1"), None);
    assert_eq!(parse_count("15.0"), None);
    assert_eq!(parse_count(""), None);
    assert_eq!(parse_count("+"), None);
    assert_eq!(parse_count("1x"), None);
}

#[test]
fn percentages() {
    assert_eq!(parse_percentage("12.3%"), Some(12_300));
    assert_eq!(parse_percentage("12.3"), Some(12_300));
    assert_eq!(parse_percentage("-5%"), Some(-5_000));
    assert_eq!(parse_percentage("50%%"), Some(50_000));
    assert_eq!(parse_percentage("%"), None);
    assert_eq!(parse_percentage(""), None);
    assert_eq!(parse_percentage("%5"), None);
    assert_eq!(parse_percentage("5 %"), None);
}

#[test]
fn what_was_written_reads_back() {
    for v in [0i64, 1, -1, 7, 999, 1_000, -1_001, 16_093, -2_147_483_648, 2_147_483_647] {
        let mut text = String::new();
        push_signed_three_decimals(&mut text, v);
        assert_eq!(parse_reading(&text), Some(v as i32), "{}", text);
    }
    for h in [0i64, 5, -5, 99, 100, -12_345, 214_748_364] {
        let mut text = String::new();
        push_two_decimals(&mut text, h);
        assert_eq!(parse_reading(&text), Some((h * 10) as i32), "{}", text);
    }
    for n in [0u8, 9, 10, 255] {
        assert_eq!(parse_count(&n.to_string()), Some(n));
        assert_eq!(parse_amount(&n.to_string()), Some(n as u32 * 1000));
    }
}
