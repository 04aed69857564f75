use telemetry_overlay::text::{ends_with, push_decimal, same_text};
use telemetry_overlay::units::{
    div_round, format_reading, push_signed, push_signed_three_decimals, push_three_decimals,
    push_two_decimals, saturate,
};

fn two(v: i64) -> String {
    let mut s = String::new();
    push_two_decimals(&mut s, v);
    s
}

#[test]
fn division_rounds_half_away_from_zero() {
    assert_eq!(div_round(7, 2), 4);
    assert_eq!(div_round(-7, 2), -4);
    assert_eq!(div_round(5, 10), 1);
    assert_eq!(div_round(4, 10), 0);
    assert_eq!(div_round(-5, 10), -1);
    assert_eq!(div_round(-4, 10), 0);
    assert_eq!(div_round(0, 3), 0);
    assert_eq!(div_round(i64::MAX, 1), i64::MAX);
    assert_eq!(div_round(i64::MIN, 1), i64::MIN);
    assert_eq!(div_round(i64::MIN, i64::MAX), -1);
}

#[test]
fn decimals_are_appended() {
    let mut s = String::from("n=");
    push_decimal(&mut s, 0);
    s.push(',');
    push_decimal(&mut s, 1_000_000);
    s.push(',');
    push_decimal(&mut s, u64::MAX);
    assert_eq!(s, "n=0,1000000,18446744073709551615");
}

#[test]
fn signed_numbers() {
    let mut s = String::new();
    push_signed(&mut s, -12);
    s.push(' ');
    push_signed(&mut s, i64::MIN);
    s.push(' ');
    push_signed(&mut s, 34);
    assert_eq!(s, "-12 -9223372036854775808 34");
}

#[test]
fn two_decimals() {
    assert_eq!(two(1234), "12.34");
    assert_eq!(two(5), "0.05");
    assert_eq!(two(-5), "-0.05");
    assert_eq!(two(0), "0.00");
    assert_eq!(two(-120), "-1.20");
    assert_eq!(two(100), "1.00");
}

#[test]
fn three_decimals() {
    let mut s = String::new();
    push_three_decimals(&mut s, 1500);
    s.push(' ');
    push_three_decimals(&mut s, 7);
    s.push(' ');
    push_signed_three_decimals(&mut s, -90_000);
    s.push(' ');
    push_signed_three_decimals(&mut s, 154_286);
    assert_eq!(s, "1.500 0.007 -90.000 154.286");
}

#[test]
fn readings_with_two_decimals() {
    assert_eq!(format_reading(12_345, false), "12.35");
    assert_eq!(format_reading(12_344, false), "12.34");
    assert_eq!(format_reading(-12_345, false), "-12.35");
    assert_eq!(format_reading(0, false), "0.00");
    assert_eq!(format_reading(-4, false), "0.00");
    assert_eq!(format_reading(i32::MAX, false), "2147483.65");
    assert_eq!(format_reading(i32::MIN, false), "-2147483.65");
}

#[test]
fn readings_as_whole_numbers() {
    assert_eq!(format_reading(12_499, true), "12");
    assert_eq!(format_reading(12_500, true), "13");
    assert_eq!(format_reading(-12_500, true), "-13");
    assert_eq!(format_reading(499, true), "0");
    assert_eq!(format_reading(-499, true), "0");
}

#[test]
fn saturation() {
    assert_eq!(saturate(5), 5);
    assert_eq!(saturate(i32::MAX as i128 + 1), i32::MAX);
    assert_eq!(saturate(i128::MIN), i32::MIN);
}

#[test]
fn suffixes() {
    assert!(ends_with("ride.csv", ".csv"));
    assert!(ends_with(".csv", ".csv"));
    assert!(!ends_with("csv", ".csv"));
    assert!(!ends_with("ride.csv.zip", ".csv"));
    assert!(ends_with("anything", ""));
    assert!(ends_with("grüße.json", ".json"));
    assert!(!ends_with("ride.CSV", ".csv"));
}

#[test]
fn equal_texts() {
    assert!(same_text("rate", "rate"));
    assert!(!same_text("rate", "rat"));
    assert!(!same_text("rate", "rats"));
    assert!(same_text("", ""));
}

#[test]
fn rounded_quotient_is_nearest() {
    for n in -50i64..=50 {
        for d in 1i64..=9 {
            let q = div_round(n, d);
            assert!(2 * (n - d * q).abs() <= d, "{} / {}", n, d);
            assert_eq!(div_round(-n, d), -q);
        }
    }
}
