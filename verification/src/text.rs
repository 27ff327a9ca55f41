//! Text helpers shared by the classification and path rules: prefix tests,
//! equality on string slices and decimal rendering of integers.

use vstd::prelude::*;

verus! {

/// The characters of an optional string.
pub open spec fn optional_text(text: Option<String>) -> Option<Seq<char>> {
    match text {
        Some(s) => Some(s@),
        None => None,
    }
}

/// Whether `text` begins with `prefix`.
pub open spec fn has_prefix(text: Seq<char>, prefix: Seq<char>) -> bool {
    prefix.len() <= text.len() && text.subrange(0, prefix.len() as int) == prefix
}

/// What is left of `text` once its first `count` characters are removed:
/// nothing where `text` is no longer than that.
pub open spec fn without_prefix(text: Seq<char>, count: nat) -> Seq<char> {
    if count <= text.len() {
        text.subrange(count as int, text.len() as int)
    } else {
        Seq::empty()
    }
}

/// The character that stands for the decimal digit `d`.
pub open spec fn digit_char(d: nat) -> char {
    if d == 0 {
        '0'
    } else if d == 1 {
        '1'
    } else if d == 2 {
        '2'
    } else if d == 3 {
        '3'
    } else if d == 4 {
        '4'
    } else if d == 5 {
        '5'
    } else if d == 6 {
        '6'
    } else if d == 7 {
        '7'
    } else if d == 8 {
        '8'
    } else {
        '9'
    }
}

/// The decimal digits of `n`, most significant first, without leading zeros.
pub open spec fn decimal_text(n: nat) -> Seq<char>
    decreases n,
{
    if n < 10 {
        seq![digit_char(n)]
    } else {
        decimal_text(n / 10).push(digit_char(n % 10))
    }
}

/// The decimal rendering of a signed integer: a minus sign for negative
/// values, then the digits of the magnitude.
pub open spec fn signed_decimal_text(i: int) -> Seq<char> {
    if i < 0 {
        seq!['-'] + decimal_text((-i) as nat)
    } else {
        decimal_text(i as nat)
    }
}

/// Tenths of a second in a duration of `millis` milliseconds, rounded to
/// the nearest tenth; a duration half way between two tenths goes to the
/// even one.
pub open spec fn rounded_tenths(millis: u64) -> nat {
    let whole: u64 = millis / 100;
    let rest: u64 = millis % 100;
    if rest > 50 || (rest == 50 && whole % 2 == 1) {
        (whole + 1) as nat
    } else {
        whole as nat
    }
}

/// A duration of `millis` milliseconds written in seconds with one decimal
/// place, such as `2.1` for 2100.
pub open spec fn seconds_text(millis: u64) -> Seq<char> {
    let tenths: nat = rounded_tenths(millis);
    decimal_text(tenths / 10) + seq!['.'] + seq![digit_char(tenths % 10)]
}

/// Compares two string slices character by character.
pub fn text_equals(a: &str, b: &str) -> (same: bool)
    ensures
        same == (a@ == b@),
{
    let left = a.to_owned();
    let right = b.to_owned();
    left == right
}

/// Tests whether `text` begins with `prefix`.
pub fn starts_with(text: &str, prefix: &str) -> (found: bool)
    ensures
        found == has_prefix(text@, prefix@),
{
    let count: usize = prefix.unicode_len();
    if text.unicode_len() < count {
        return false;
    }
    let head = text.substring_char(0, count);
    text_equals(head, prefix)
}

/// Returns `text` without its first `count` characters.
pub fn skip_chars(text: &str, count: usize) -> (rest: &str)
    ensures
        rest@ == without_prefix(text@, count as nat),
{
    let length: usize = text.unicode_len();
    if count <= length {
        text.substring_char(count, length)
    } else {
        text.substring_char(length, length)
    }
}

/// The one-character string of a decimal digit.
fn digit_str(d: u64) -> (s: &'static str)
    requires
        d < 10,
    ensures
        s@ == seq![digit_char(d as nat)],
{
    let s = if d == 0 {
        "0"
    } else if d == 1 {
        "1"
    } else if d == 2 {
        "2"
    } else if d == 3 {
        "3"
    } else if d == 4 {
        "4"
    } else if d == 5 {
        "5"
    } else if d == 6 {
        "6"
    } else if d == 7 {
        "7"
    } else if d == 8 {
        "8"
    } else {
        "9"
    };
    proof {
        reveal_strlit("0");
        reveal_strlit("1");
        reveal_strlit("2");
        reveal_strlit("3");
        reveal_strlit("4");
        reveal_strlit("5");
        reveal_strlit("6");
        reveal_strlit("7");
        reveal_strlit("8");
        reveal_strlit("9");
    }
    s
}

/// Appends the decimal digits of `n` to `out`.
pub fn push_decimal(out: &mut String, n: u64)
    ensures
        final(out)@ == old(out)@ + decimal_text(n as nat),
    decreases n,
{
    if n >= 10 {
        push_decimal(out, n / 10);
    }
    out.append(digit_str(n % 10));
}

/// Appends the decimal rendering of a signed integer to `out`.
pub fn push_signed_decimal(out: &mut String, i: i64)
    ensures
        final(out)@ == old(out)@ + signed_decimal_text(i as int),
{
    if i < 0 {
        out.append("-");
        let magnitude: u64 = if i == i64::MIN {
            9223372036854775808u64
        } else {
            (-i) as u64
        };
        push_decimal(out, magnitude);
        proof {
            reveal_strlit("-");
        }
    } else {
        push_decimal(out, i as u64);
    }
}

/// Appends a duration of `millis` milliseconds, written in seconds with one
/// decimal place, to `out`.
pub fn push_seconds(out: &mut String, millis: u64)
    ensures
        final(out)@ == old(out)@ + seconds_text(millis),
{
    let whole: u64 = millis / 100;
    let rest: u64 = millis % 100;
    let tenths: u64 = if rest > 50 || (rest == 50 && whole % 2 == 1) {
        whole + 1
    } else {
        whole
    };
    push_decimal(out, tenths / 10);
    out.append(".");
    out.append(digit_str(tenths % 10));
    proof {
        reveal_strlit(".");
    }
}

} // verus!
