use vstd::prelude::*;
use vstd::string::*;
use crate::text::{decimal, digit_char, digit_str, push_decimal};

verus! {

/// The quotient `n / d` rounded to the nearest integer, a half going away
/// from zero.
#[verifier::inline]
pub open spec fn rounded_div(n: int, d: int) -> int
    recommends
        d > 0,
{
    if n >= 0 {
        (2 * n + d) / (2 * d)
    } else {
        -((2 * (-n) + d) / (2 * d))
    }
}

/// The rounded quotient is the whole number nearest to the true quotient:
/// it misses it by at most a half. Rounding treats both signs alike.
pub proof fn rounded_div_is_nearest(n: int, d: int)
    requires
        d > 0,
    ensures
        2 * (n - d * rounded_div(n, d)) <= d,
        2 * (d * rounded_div(n, d) - n) <= d,
        rounded_div(-n, d) == -rounded_div(n, d),
{
    let m = if n >= 0 { n } else { -n };
    let q = (2 * m + d) / (2 * d);
    assert(2 * (m - d * q) <= d && 2 * (d * q - m) <= d) by (nonlinear_arith)
        requires
            d > 0,
            m >= 0,
            q == (2 * m + d) / (2 * d),
    ;
    assert(d * (-q) == -(d * q)) by (nonlinear_arith);
    if n == 0 {
        assert(q == 0) by (nonlinear_arith)
            requires
                d > 0,
                q == (2 * 0 + d) / (2 * d),
        ;
    }
}

proof fn lemma_rounded_magnitude(m: int, d: int)
    requires
        m >= 0,
        d > 0,
    ensures
        0 <= (2 * m + d) / (2 * d) <= m,
{
    assert(0 <= (2 * m + d) / (2 * d) <= m) by (nonlinear_arith)
        requires
            m >= 0,
            d > 0,
    ;
}

/// Divides with rounding to the nearest integer, a half going away from zero.
pub fn div_round(n: i64, d: i64) -> (q: i64)
    requires
        d > 0,
    ensures
        q == rounded_div(n as int, d as int),
{
    let divisor: u128 = d as u128;
    if n >= 0 {
        let m: u128 = n as u128;
        proof {
            lemma_rounded_magnitude(m as int, d as int);
        }
        ((2 * m + divisor) / (2 * divisor)) as i64
    } else {
        let m: u128 = (-(n as i128)) as u128;
        proof {
            lemma_rounded_magnitude(m as int, d as int);
        }
        let q: u128 = (2 * m + divisor) / (2 * divisor);
        (-(q as i128)) as i64
    }
}

/// The numeral of an integer: a minus sign for a negative one, then the
/// digits of its magnitude.
pub open spec fn signed_decimal(v: int) -> Seq<char> {
    if v < 0 {
        seq!['-'] + decimal((-v) as nat)
    } else {
        decimal(v as nat)
    }
}

/// The numeral of a count of hundredths, with exactly two decimals:
/// `1234` reads `12.34`, `-5` reads `-0.05`.
pub open spec fn two_decimals(hundredths: int) -> Seq<char> {
    let m = if hundredths < 0 { -hundredths } else { hundredths };
    let sign = if hundredths < 0 { seq!['-'] } else { Seq::<char>::empty() };
    sign + decimal((m / 100) as nat) + seq!['.', digit_char((m / 10) % 10), digit_char(m % 10)]
}

/// The numeral of a count of thousandths, with exactly three decimals.
pub open spec fn three_decimals(thousandths: nat) -> Seq<char> {
    decimal(thousandths / 1000) + seq![
        '.',
        digit_char(((thousandths / 100) % 10) as int),
        digit_char(((thousandths / 10) % 10) as int),
        digit_char((thousandths % 10) as int),
    ]
}

/// Appends the numeral of `v` to `out`.
pub fn push_signed(out: &mut String, v: i64)
    ensures
        final(out)@ == old(out)@ + signed_decimal(v as int),
{
    if v < 0 {
        proof {
            reveal_strlit("-");
        }
        out.append("-");
        let m: u64 = (-(v as i128)) as u64;
        push_decimal(out, m);
    } else {
        push_decimal(out, v as u64);
    }
}

/// Appends a count of hundredths to `out`, written with two decimals.
pub fn push_two_decimals(out: &mut String, hundredths: i64)
    ensures
        final(out)@ == old(out)@ + two_decimals(hundredths as int),
{
    proof {
        reveal_strlit("-");
        reveal_strlit(".");
    }
    let m: u64 = if hundredths < 0 {
        out.append("-");
        (-(hundredths as i128)) as u64
    } else {
        hundredths as u64
    };
    push_decimal(out, m / 100);
    out.append(".");
    out.append(digit_str(((m / 10) % 10) as u8));
    out.append(digit_str((m % 10) as u8));
}

/// Appends a count of thousandths to `out`, written with three decimals.
pub fn push_three_decimals(out: &mut String, thousandths: u64)
    ensures
        final(out)@ == old(out)@ + three_decimals(thousandths as nat),
{
    proof {
        reveal_strlit(".");
    }
    push_decimal(out, thousandths / 1000);
    out.append(".");
    out.append(digit_str(((thousandths / 100) % 10) as u8));
    out.append(digit_str(((thousandths / 10) % 10) as u8));
    out.append(digit_str((thousandths % 10) as u8));
}

/// How a reading in thousandths is written: rounded to a whole number, or
/// rounded to two decimals.
pub open spec fn reading_text(thousandths: int, as_int: bool) -> Seq<char> {
    if as_int {
        signed_decimal(rounded_div(thousandths, 1000))
    } else {
        two_decimals(rounded_div(thousandths, 10))
    }
}

/// Writes a reading given in thousandths, either as a whole number or with
/// two decimals; a half rounds away from zero.
pub fn format_reading(value: i32, as_int: bool) -> (res: String)
    ensures
        res@ == reading_text(value as int, as_int),
{
    let mut out = String::new();
    if as_int {
        push_signed(&mut out, div_round(value as i64, 1000));
    } else {
        push_two_decimals(&mut out, div_round(value as i64, 10));
    }
    out
}

/// The nearest value that a signed thirty-two bit number can hold.
pub open spec fn saturated(v: int) -> i32 {
    if v < i32::MIN {
        i32::MIN
    } else if v > i32::MAX {
        i32::MAX
    } else {
        v as i32
    }
}

/// Brings a number into the range of thirty-two bits.
pub fn saturate(v: i128) -> (c: i32)
    ensures
        c == saturated(v as int),
{
    if v < i32::MIN as i128 {
        i32::MIN
    } else if v > i32::MAX as i128 {
        i32::MAX
    } else {
        v as i32
    }
}

/// The numeral of a count of thousandths of either sign, with exactly
/// three decimals.
pub open spec fn signed_three_decimals(thousandths: int) -> Seq<char> {
    if thousandths < 0 {
        seq!['-'] + three_decimals((-thousandths) as nat)
    } else {
        three_decimals(thousandths as nat)
    }
}

/// Appends a count of thousandths of either sign to `out`, written with
/// three decimals.
pub fn push_signed_three_decimals(out: &mut String, thousandths: i64)
    ensures
        final(out)@ == old(out)@ + signed_three_decimals(thousandths as int),
{
    if thousandths < 0 {
        proof {
            reveal_strlit("-");
        }
        out.append("-");
        push_three_decimals(out, (-(thousandths as i128)) as u64);
    } else {
        push_three_decimals(out, thousandths as u64);
    }
}

} // verus!
