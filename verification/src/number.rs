use vstd::prelude::*;
use vstd::string::*;

verus! {

/// The character is a decimal digit.
pub open spec fn is_digit(c: char) -> bool {
    '0' <= c <= '9'
}

/// What a decimal digit counts.
pub open spec fn digit_of(c: char) -> int {
    c as int - '0' as int
}

/// The number of digits that a text starts with.
pub open spec fn leading_digits(text: Seq<char>) -> nat
    decreases text.len(),
{
    if text.len() > 0 && is_digit(text[0]) {
        1 + leading_digits(text.skip(1))
    } else {
        0
    }
}

/// What a run of digits counts, read as a decimal numeral.
pub open spec fn digits_value(digits: Seq<char>) -> nat
    decreases digits.len(),
{
    if digits.len() == 0 {
        0
    } else {
        (10 * digits_value(digits.drop_last()) + digit_of(digits.last())) as nat
    }
}

/// The digit at place `k` after the point, zero where the decimals end
/// before it.
pub open spec fn decimal_at(decimals: Seq<char>, k: int) -> int {
    if k < decimals.len() {
        digit_of(decimals[k])
    } else {
        0
    }
}

/// What the decimals of a numeral count in thousandths: the first three
/// count, and the fourth rounds them up if it is five or more.
pub open spec fn decimals_value(decimals: Seq<char>) -> int {
    100 * decimal_at(decimals, 0) + 10 * decimal_at(decimals, 1) + decimal_at(decimals, 2) + (
    if decimal_at(decimals, 3) >= 5 {
        1int
    } else {
        0int
    })
}

/// What a numeral without sign counts in thousandths, if it is one: digits,
/// then possibly a point and more digits, with a digit on at least one side
/// of the point.
pub open spec fn unsigned_value(text: Seq<char>) -> Option<int> {
    let whole = leading_digits(text);
    let rest = text.skip(whole as int);
    if rest.len() == 0 {
        if whole > 0 {
            Some(1000 * (digits_value(text.take(whole as int)) as int))
        } else {
            None
        }
    } else if rest[0] == '.' && leading_digits(rest.skip(1)) == rest.len() - 1 && text.len() > 1 {
        Some(1000 * (digits_value(text.take(whole as int)) as int) + decimals_value(rest.skip(1)))
    } else {
        None
    }
}

/// What a decimal numeral counts in thousandths, if the text is one: a
/// sign or none, then a numeral without sign. Decimals beyond the third
/// round to the nearest thousandth, a half going away from zero. A numeral
/// with an exponent, such as `3e1`, is none, and neither are the names of
/// infinity and of what is not a number.
pub open spec fn decimal_value(text: Seq<char>) -> Option<int> {
    if text.len() > 0 && text[0] == '-' {
        match unsigned_value(text.skip(1)) {
            Some(v) => Some(-v),
            None => None,
        }
    } else if text.len() > 0 && text[0] == '+' {
        unsigned_value(text.skip(1))
    } else {
        unsigned_value(text)
    }
}

/// What a text counts in thousandths, if it is a decimal numeral within
/// the range of a signed reading.
pub open spec fn reading(text: Seq<char>) -> Option<i32> {
    match decimal_value(text) {
        Some(v) => if i32::MIN <= v <= i32::MAX {
            Some(v as i32)
        } else {
            None
        },
        None => None,
    }
}

/// What a text counts in thousandths, if it is a decimal numeral that is
/// not negative and within the range of an unsigned amount.
pub open spec fn amount(text: Seq<char>) -> Option<u32> {
    match decimal_value(text) {
        Some(v) => if 0 <= v <= u32::MAX {
            Some(v as u32)
        } else {
            None
        },
        None => None,
    }
}

/// A text that starts with `count` digits, and either ends there or goes on
/// with something else, has `count` leading digits.
proof fn lemma_leading_digits(text: Seq<char>, count: nat)
    requires
        count <= text.len(),
        forall|k: int| 0 <= k < count ==> is_digit(#[trigger] text[k]),
        count == text.len() || !is_digit(text[count as int]),
    ensures
        leading_digits(text) == count,
    decreases count,
{
    if count > 0 {
        let tail = text.skip(1);
        assert forall|k: int| 0 <= k < count - 1 implies is_digit(#[trigger] tail[k]) by {
            assert(tail[k] == text[k + 1]);
        }
        lemma_leading_digits(tail, (count - 1) as nat);
    }
}

/// Values beyond this are known to be out of every range that a number is
/// read for.
const CAP: u64 = 10_000_000_000;

/// The value, or `CAP` where it is larger.
spec fn capped(v: int) -> int {
    if v >= CAP {
        CAP as int
    } else {
        v
    }
}

fn digit_value(c: char) -> (d: u64)
    requires
        is_digit(c),
    ensures
        d == digit_of(c),
        d <= 9,
{
    (c as u32 - '0' as u32) as u64
}

fn digit_at(text: &str, len: usize, i: usize) -> (d: u64)
    requires
        len == text@.len(),
        i >= len || is_digit(text@[i as int]),
    ensures
        d <= 9,
        d == if i < len {
            digit_of(text@[i as int])
        } else {
            0
        },
{
    if i < len {
        digit_value(text.get_char(i))
    } else {
        0
    }
}

/// Reads a numeral without sign that starts at `start`; the value is capped.
fn read_unsigned(text: &str, start: usize) -> (res: Option<u64>)
    requires
        start <= text@.len(),
    ensures
        match unsigned_value(text@.skip(start as int)) {
            Some(v) => v >= 0 && res == Some(capped(v) as u64),
            None => res is None,
        },
{
    let n = text.unicode_len();
    let ghost body = text@.skip(start as int);
    let mut whole: u64 = 0;
    let mut i: usize = start;
    while i < n && text.get_char(i) >= '0' && text.get_char(i) <= '9'
        invariant
            start <= i <= n,
            n == text@.len(),
            body == text@.skip(start as int),
            forall|k: int| 0 <= k < i - start ==> is_digit(#[trigger] body[k]),
            whole == capped(digits_value(body.take(i - start)) as int),
        decreases n - i,
    {
        let d = digit_value(text.get_char(i));
        proof {
            let before = body.take(i - start);
            let after = body.take(i + 1 - start);
            assert(after.drop_last() =~= before);
        }
        whole = if whole >= CAP / 10 {
            CAP
        } else {
            whole * 10 + d
        };
        if whole > CAP {
            whole = CAP;
        }
        i = i + 1;
    }
    let ghost count = (i - start) as nat;
    proof {
        assert(i < n ==> body[count as int] == text@[i as int]);
        lemma_leading_digits(body, count);
    }
    let ghost rest = body.skip(count as int);
    let thousand: u64 = if whole >= CAP / 1000 {
        CAP
    } else {
        whole * 1000
    };
    if i == n {
        if i > start {
            return Some(thousand);
        } else {
            return None;
        }
    }
    if text.get_char(i) != '.' {
        return None;
    }
    assert(rest[0] == '.');
    let ghost decimals = rest.skip(1);
    let first: usize = i + 1;
    let mut j: usize = first;
    while j < n && text.get_char(j) >= '0' && text.get_char(j) <= '9'
        invariant
            first <= j <= n,
            first == i + 1,
            i >= start,
            n == text@.len(),
            decimals.len() == n - first,
            forall|k: int| 0 <= k < n - first ==> decimals[k] == text@[first + k],
            forall|k: int| 0 <= k < j - first ==> is_digit(#[trigger] decimals[k]),
        decreases n - j,
    {
        j = j + 1;
    }
    proof {
        assert(j < n ==> decimals[j - first] == text@[j as int]);
        lemma_leading_digits(decimals, (j - first) as nat);
    }
    if j < n || n - start < 2 {
        return None;
    }
    assert forall|k: int| first <= k < n implies is_digit(text@[k]) by {
        assert(decimals[k - first] == text@[k]);
    }
    let d0 = digit_at(text, n, first);
    let places = n - first;
    let d1 = digit_at(text, n, if places > 1 { first + 1 } else { n });
    let d2 = digit_at(text, n, if places > 2 { first + 2 } else { n });
    let d3 = digit_at(text, n, if places > 3 { first + 3 } else { n });
    let part: u64 = 100 * d0 + 10 * d1 + d2 + if d3 >= 5 { 1 } else { 0 };
    let sum = thousand + part;
    Some(if sum > CAP { CAP } else { sum })
}

/// Reads a decimal numeral as a count of thousandths, which must be within
/// the range of a signed reading.
pub fn parse_reading(text: &str) -> (res: Option<i32>)
    ensures
        res == reading(text@),
{
    let n = text.unicode_len();
    if n > 0 && text.get_char(0) == '-' {
        match read_unsigned(text, 1) {
            Some(v) => if v <= 0x8000_0000 {
                Some((-(v as i64)) as i32)
            } else {
                None
            },
            None => None,
        }
    } else {
        let start: usize = if n > 0 && text.get_char(0) == '+' {
            1
        } else {
            0
        };
        assert(text@.skip(0) =~= text@);
        match read_unsigned(text, start) {
            Some(v) => if v <= 0x7fff_ffff {
                Some(v as i32)
            } else {
                None
            },
            None => None,
        }
    }
}

/// Reads a decimal numeral as a count of thousandths, which must not be
/// negative and must be within the range of an unsigned amount.
pub fn parse_amount(text: &str) -> (res: Option<u32>)
    ensures
        res == amount(text@),
{
    let n = text.unicode_len();
    if n > 0 && text.get_char(0) == '-' {
        match read_unsigned(text, 1) {
            Some(v) => if v == 0 {
                Some(0)
            } else {
                None
            },
            None => None,
        }
    } else {
        let start: usize = if n > 0 && text.get_char(0) == '+' {
            1
        } else {
            0
        };
        assert(text@.skip(0) =~= text@);
        match read_unsigned(text, start) {
            Some(v) => if v <= 0xffff_ffff {
                Some(v as u32)
            } else {
                None
            },
            None => None,
        }
    }
}

/// What a whole numeral counts, if the text is one: a plus sign or none,
/// then digits and nothing else.
pub open spec fn whole_value(text: Seq<char>) -> Option<nat> {
    let digits = if text.len() > 0 && text[0] == '+' {
        text.skip(1)
    } else {
        text
    };
    if digits.len() > 0 && leading_digits(digits) == digits.len() {
        Some(digits_value(digits))
    } else {
        None
    }
}

/// What a text counts, if it is a whole numeral within the range of a
/// small count.
pub open spec fn count(text: Seq<char>) -> Option<u8> {
    match whole_value(text) {
        Some(v) => if v <= u8::MAX {
            Some(v as u8)
        } else {
            None
        },
        None => None,
    }
}

/// Reads a whole numeral that must be within the range of a small count.
pub fn parse_count(text: &str) -> (res: Option<u8>)
    ensures
        res == count(text@),
{
    let n = text.unicode_len();
    let start: usize = if n > 0 && text.get_char(0) == '+' {
        1
    } else {
        0
    };
    let ghost digits = text@.skip(start as int);
    let mut value: u64 = 0;
    let mut i: usize = start;
    while i < n && text.get_char(i) >= '0' && text.get_char(i) <= '9'
        invariant
            start <= i <= n,
            n == text@.len(),
            digits == text@.skip(start as int),
            forall|k: int| 0 <= k < i - start ==> is_digit(#[trigger] digits[k]),
            value == capped(digits_value(digits.take(i - start)) as int),
        decreases n - i,
    {
        let d = digit_value(text.get_char(i));
        proof {
            let before = digits.take(i - start);
            let after = digits.take(i + 1 - start);
            assert(after.drop_last() =~= before);
            assert(after.last() == text@[i as int]);
        }
        value = if value >= CAP / 10 {
            CAP
        } else {
            value * 10 + d
        };
        if value > CAP {
            value = CAP;
        }
        i = i + 1;
    }
    proof {
        assert(i < n ==> digits[i - start] == text@[i as int]);
        lemma_leading_digits(digits, (i - start) as nat);
        assert(digits.take(digits.len() as int) =~= digits);
        assert(text@.skip(0) =~= text@);
    }
    if i < n || i == start || value > 255 {
        None
    } else {
        Some(value as u8)
    }
}

/// The text without the characters `c` that it ends with.
pub open spec fn without_trailing(text: Seq<char>, c: char) -> Seq<char>
    decreases text.len(),
{
    if text.len() > 0 && text.last() == c {
        without_trailing(text.drop_last(), c)
    } else {
        text
    }
}

/// Reads a percentage as a count of thousandths of a percent: a decimal
/// numeral, with any number of percent signs after it.
pub fn parse_percentage(text: &str) -> (res: Option<i32>)
    ensures
        res == reading(without_trailing(text@, '%')),
{
    let n = text.unicode_len();
    let mut end: usize = n;
    assert(text@.take(n as int) =~= text@);
    while end > 0 && text.get_char(end - 1) == '%'
        invariant
            end <= n,
            n == text@.len(),
            without_trailing(text@, '%') == without_trailing(text@.take(end as int), '%'),
        decreases end,
    {
        proof {
            let longer = text@.take(end as int);
            assert(longer.drop_last() =~= text@.take(end - 1));
        }
        end = end - 1;
    }
    parse_reading(text.substring_char(0, end))
}

} // verus!
