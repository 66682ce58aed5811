//! Decimal integers as they are written on the command line, and the
//! `default` marker that stands for "keep the real value".
//!
//! The grammar is the one the standard library uses for its integer types: an
//! optional sign (`+` always, `-` for a signed type only), then one or more
//! decimal digits and nothing else; a value outside the type is rejected.

use vstd::prelude::*;
use vstd::string::StringSliceAdditionalSpecFns;
use vstd::utf8::*;

verus! {

pub open spec fn is_digit(c: char) -> bool {
    '0' <= c && c <= '9'
}

pub open spec fn digit_value(c: char) -> nat {
    (c as int - '0' as int) as nat
}

pub open spec fn all_digits(s: Seq<char>) -> bool {
    forall|i: int| 0 <= i < s.len() ==> is_digit(#[trigger] s[i])
}

/// The number that a run of decimal digits denotes; zero for the empty run.
pub open spec fn digits_value(s: Seq<char>) -> nat
    decreases s.len(),
{
    if s.len() == 0 {
        0
    } else {
        digits_value(s.drop_last()) * 10 + digit_value(s.last())
    }
}

/// The number that `digits` denotes, provided there is at least one digit,
/// nothing but digits, and the number does not exceed `limit`.
pub open spec fn magnitude_within(digits: Seq<char>, limit: nat) -> Option<nat> {
    if digits.len() > 0 && all_digits(digits) && digits_value(digits) <= limit {
        Some(digits_value(digits))
    } else {
        None
    }
}

/// How many leading characters of `s` are a sign that an unsigned number may
/// carry.
pub open spec fn plus_len(s: Seq<char>) -> int {
    if s.len() > 0 && s[0] == '+' {
        1
    } else {
        0
    }
}

/// How many leading characters of `s` are a sign that a signed number may
/// carry.
pub open spec fn sign_len(s: Seq<char>) -> int {
    if s.len() > 0 && (s[0] == '+' || s[0] == '-') {
        1
    } else {
        0
    }
}

/// The unsigned 64-bit number that `s` denotes, if it denotes one.
pub open spec fn parse_u64_spec(s: Seq<char>) -> Option<u64> {
    match magnitude_within(s.skip(plus_len(s)), u64::MAX as nat) {
        Some(m) => Some(m as u64),
        None => None,
    }
}

/// The signed 64-bit number that `s` denotes, if it denotes one.
pub open spec fn parse_i64_spec(s: Seq<char>) -> Option<i64> {
    if s.len() > 0 && s[0] == '-' {
        match magnitude_within(s.skip(1), 0x8000_0000_0000_0000) {
            Some(m) => Some((-(m as int)) as i64),
            None => None,
        }
    } else {
        match magnitude_within(s.skip(sign_len(s)), i64::MAX as nat) {
            Some(m) => Some(m as i64),
            None => None,
        }
    }
}

/// The word that stands for "keep the real value".
pub open spec fn default_marker() -> Seq<char> {
    seq!['d', 'e', 'f', 'a', 'u', 'l', 't']
}

/// What a field of unsigned type becomes: `actual` for the marker, else the
/// number written, if one is.
pub open spec fn u64_or_default(val: Seq<char>, actual: u64) -> Option<u64> {
    if val == default_marker() {
        Some(actual)
    } else {
        parse_u64_spec(val)
    }
}

/// What a field of signed type becomes: `actual` for the marker, else the
/// number written, if one is.
pub open spec fn i64_or_default(val: Seq<char>, actual: i64) -> Option<i64> {
    if val == default_marker() {
        Some(actual)
    } else {
        parse_i64_spec(val)
    }
}

/// The character that writes the digit `d`.
pub open spec fn digit_char(d: nat) -> char {
    ('0' as int + d) as char
}

/// The digits that write `n` in the usual way: no sign, no leading zero.
pub open spec fn decimal_digits(n: nat) -> Seq<char>
    decreases n,
{
    if n < 10 {
        seq![digit_char(n)]
    } else {
        decimal_digits(n / 10).push(digit_char(n % 10))
    }
}

/// The usual decimal writing of `v`, with `-` in front of a negative number.
pub open spec fn decimal_text(v: int) -> Seq<char> {
    if v < 0 {
        seq!['-'] + decimal_digits((-v) as nat)
    } else {
        decimal_digits(v as nat)
    }
}

/// The usual writing of a number is a run of digits that denotes it.
pub proof fn lemma_decimal_digits(n: nat)
    ensures
        decimal_digits(n).len() > 0,
        all_digits(decimal_digits(n)),
        digits_value(decimal_digits(n)) == n,
    decreases n,
{
    if n < 10 {
        let s = decimal_digits(n);
        assert(s.drop_last().len() == 0);
        assert(digits_value(s.drop_last()) == 0);
        assert(digit_value(s.last()) == n);
    } else {
        lemma_decimal_digits(n / 10);
        let s = decimal_digits(n);
        assert(s.drop_last() == decimal_digits(n / 10));
        assert(digit_value(s.last()) == n % 10);
        assert(digits_value(s) == (n / 10) * 10 + n % 10);
        assert forall|i: int| 0 <= i < s.len() implies is_digit(#[trigger] s[i]) by {
            if i < s.len() - 1 {
                assert(s[i] == decimal_digits(n / 10)[i]);
            }
        }
    }
}

/// Reading the usual writing of an unsigned number gives the number back.
pub proof fn lemma_parse_decimal_u64(v: u64)
    ensures
        parse_u64_spec(decimal_text(v as int)) == Some(v),
        decimal_text(v as int) != default_marker(),
{
    let s = decimal_text(v as int);
    lemma_decimal_digits(v as nat);
    assert(is_digit(s[0]));
    assert(s.skip(0) == s);
    assert(default_marker()[0] == 'd');
}

/// Reading the usual writing of a signed number gives the number back.
pub proof fn lemma_parse_decimal_i64(v: i64)
    ensures
        parse_i64_spec(decimal_text(v as int)) == Some(v),
        decimal_text(v as int) != default_marker(),
{
    let s = decimal_text(v as int);
    assert(default_marker()[0] == 'd');
    if v < 0 {
        let m = (-v) as nat;
        lemma_decimal_digits(m);
        assert(s[0] == '-');
        assert(s.skip(1) == decimal_digits(m));
    } else {
        lemma_decimal_digits(v as nat);
        assert(is_digit(s[0]));
        assert(s.skip(0) == s);
    }
}

/// To write `default` in a field of unsigned type is to write out the
/// value that stands behind it.
pub proof fn lemma_default_is_literal_u64(actual: u64, other: u64)
    ensures
        u64_or_default(default_marker(), actual) == Some(actual),
        u64_or_default(decimal_text(actual as int), other) == Some(actual),
{
    lemma_parse_decimal_u64(actual);
}

/// To write `default` in a field of signed type is to write out the value
/// that stands behind it.
pub proof fn lemma_default_is_literal_i64(actual: i64, other: i64)
    ensures
        i64_or_default(default_marker(), actual) == Some(actual),
        i64_or_default(decimal_text(actual as int), other) == Some(actual),
{
    lemma_parse_decimal_i64(actual);
}

/// A field that holds neither the marker nor a number of its type has no
/// value.
pub proof fn lemma_not_a_number_is_rejected(val: Seq<char>, actual_u: u64, actual_i: i64)
    requires
        val != default_marker(),
    ensures
        parse_u64_spec(val) is None ==> u64_or_default(val, actual_u) is None,
        parse_i64_spec(val) is None ==> i64_or_default(val, actual_i) is None,
{
}

/// A longer run of digits never denotes less than one of its prefixes.
proof fn lemma_prefix_value(s: Seq<char>, k: int)
    requires
        0 <= k <= s.len(),
    ensures
        digits_value(s.take(k)) <= digits_value(s),
    decreases s.len(),
{
    if k == s.len() {
        assert(s.take(k) == s);
    } else {
        assert(s.drop_last().take(k) == s.take(k));
        lemma_prefix_value(s.drop_last(), k);
    }
}

/// Reads the digits `text[start..]` as a number no greater than `limit`.
fn read_magnitude(text: &str, start: usize, limit: u64) -> (r: Option<u64>)
    requires
        is_ascii_chars(text@),
        start <= text@.len(),
    ensures
        match r {
            Some(m) => magnitude_within(text@.skip(start as int), limit as nat) == Some(m as nat),
            None => magnitude_within(text@.skip(start as int), limit as nat) is None,
        },
{
    let bytes = text.as_bytes();
    proof {
        is_ascii_chars_encode_utf8(text@);
    }
    let ghost digits = text@.skip(start as int);
    let mut acc: u64 = 0;
    let mut i: usize = start;
    while i < bytes.len()
        invariant
            is_ascii_chars(text@),
            bytes@ == text.spec_bytes(),
            bytes@.len() == text@.len(),
            forall|j: int| 0 <= j < text@.len() ==> text@[j] as u8 == #[trigger] bytes@[j],
            digits == text@.skip(start as int),
            start <= i <= bytes@.len(),
            all_digits(digits.take(i - start)),
            acc == digits_value(digits.take(i - start)),
            acc <= limit,
        decreases bytes@.len() - i,
    {
        let b: u8 = bytes[i];
        let ghost c = text@[i as int];
        assert(c == digits[i - start]);
        assert('\0' <= c <= '\u{7f}');
        assert(c as u8 == b);
        if b < 48 || b > 57 {
            assert(!is_digit(digits[i - start]));
            return None;
        }
        let d: u64 = (b - 48) as u64;
        assert(is_digit(c) && digit_value(c) == d);
        let next: u128 = acc as u128 * 10 + d as u128;
        proof {
            let longer = digits.take(i - start + 1);
            assert(longer.drop_last() == digits.take(i - start));
            assert(longer.last() == c);
            assert(digits_value(longer) == next);
            assert(all_digits(longer)) by {
                assert forall|j: int| 0 <= j < longer.len() implies is_digit(#[trigger] longer[j]) by {
                    if j < i - start {
                        assert(longer[j] == digits.take(i - start)[j]);
                    }
                }
            }
        }
        if next > limit as u128 {
            proof {
                lemma_prefix_value(digits, i - start + 1);
            }
            return None;
        }
        acc = next as u64;
        i = i + 1;
    }
    assert(digits.take(i - start) == digits);
    if i == start {
        None
    } else {
        Some(acc)
    }
}

/// Reads `text` as an unsigned 64-bit decimal number.
pub fn parse_u64(text: &str) -> (r: Option<u64>)
    ensures
        r == parse_u64_spec(text@),
{
    if !text.is_ascii() {
        proof {
            lemma_not_ascii_not_number(text@);
        }
        return None;
    }
    let bytes = text.as_bytes();
    proof {
        is_ascii_chars_encode_utf8(text@);
    }
    let start: usize = if bytes.len() > 0 && bytes[0] == 43 { 1 } else { 0 };
    assert(start == plus_len(text@)) by {
        if text@.len() > 0 {
            assert(text@[0] as u8 == bytes@[0]);
        }
    }
    read_magnitude(text, start, u64::MAX)
}

/// Reads `text` as a signed 64-bit decimal number.
pub fn parse_i64(text: &str) -> (r: Option<i64>)
    ensures
        r == parse_i64_spec(text@),
{
    if !text.is_ascii() {
        proof {
            lemma_not_ascii_not_number(text@);
        }
        return None;
    }
    let bytes = text.as_bytes();
    proof {
        is_ascii_chars_encode_utf8(text@);
        if text@.len() > 0 {
            assert(text@[0] as u8 == bytes@[0]);
        }
    }
    if bytes.len() > 0 && bytes[0] == 45 {
        match read_magnitude(text, 1, 0x8000_0000_0000_0000) {
            Some(m) => {
                if m == 0x8000_0000_0000_0000 {
                    Some(i64::MIN)
                } else {
                    Some(-(m as i64))
                }
            },
            None => None,
        }
    } else {
        let start: usize = if bytes.len() > 0 && bytes[0] == 43 { 1 } else { 0 };
        match read_magnitude(text, start, 0x7fff_ffff_ffff_ffff) {
            Some(m) => Some(m as i64),
            None => None,
        }
    }
}

/// A text with a character outside ASCII is neither a number nor the marker.
proof fn lemma_not_ascii_not_number(s: Seq<char>)
    requires
        !is_ascii_chars(s),
    ensures
        parse_u64_spec(s) is None,
        parse_i64_spec(s) is None,
        s != default_marker(),
{
    let i = choose|i: int| 0 <= i < s.len() && !('\0' <= #[trigger] s[i] <= '\u{7f}');
    assert(!is_digit(s[i]));
    assert(s[i] != '+' && s[i] != '-');
    if i >= 1 {
        assert(s.skip(1)[i - 1] == s[i]);
    }
    assert(s.skip(0)[i] == s[i]);
    if s == default_marker() {
        assert(s.len() == 7);
        assert(false);
    }
}

/// Whether `val` is the word `default`.
fn is_default_marker(val: &str) -> (r: bool)
    ensures
        r == (val@ == default_marker()),
{
    if !val.is_ascii() {
        proof {
            lemma_not_ascii_not_number(val@);
        }
        return false;
    }
    let bytes = val.as_bytes();
    proof {
        is_ascii_chars_encode_utf8(val@);
    }
    let r = bytes.len() == 7 && bytes[0] == 100 && bytes[1] == 101 && bytes[2] == 102 && bytes[3]
        == 97 && bytes[4] == 117 && bytes[5] == 108 && bytes[6] == 116;
    proof {
        if val@.len() == 7 {
            assert forall|j: int| 0 <= j < 7 implies val@[j] as u8 == bytes@[j] && '\0' <= val@[j]
                <= '\u{7f}' by {}
        }
        if r {
            assert(val@ =~= default_marker());
        }
    }
    r
}

/// The value of a field of unsigned type: `default` where `val` is the
/// marker, else the number that `val` denotes, and `None` where it denotes
/// none.
pub fn parse_or_default_u64(val: &str, default: u64) -> (r: Option<u64>)
    ensures
        r == u64_or_default(val@, default),
{
    if is_default_marker(val) {
        Some(default)
    } else {
        parse_u64(val)
    }
}

/// The value of a field of signed type: `default` where `val` is the marker,
/// else the number that `val` denotes, and `None` where it denotes none.
pub fn parse_or_default_i64(val: &str, default: i64) -> (r: Option<i64>)
    ensures
        r == i64_or_default(val@, default),
{
    if is_default_marker(val) {
        Some(default)
    } else {
        parse_i64(val)
    }
}

} // verus!
