//! Scanning of byte strings: prefixes, substrings, truth values and numbers.
//!
//! Variable names and values are held as bytes throughout, the form in which
//! the process environment holds them.

use vstd::prelude::*;

verus! {

const PLUS: u8 = 43;

const MINUS: u8 = 45;

const DIGIT_ZERO: u8 = 48;

const DIGIT_NINE: u8 = 57;

/// Whether `prefix` is an initial segment of `s`.
pub open spec fn is_prefix(prefix: Seq<u8>, s: Seq<u8>) -> bool {
    prefix.len() <= s.len() && s.subrange(0, prefix.len() as int) == prefix
}

/// Whether `needle` occurs in `s` at offset `at`.
pub open spec fn occurs_at(s: Seq<u8>, needle: Seq<u8>, at: int) -> bool {
    0 <= at && at + needle.len() <= s.len() && s.subrange(at, at + needle.len()) == needle
}

/// Whether `needle` occurs somewhere in `s`.
pub open spec fn has_substring(s: Seq<u8>, needle: Seq<u8>) -> bool {
    exists|at: int| occurs_at(s, needle, at)
}

/// The truth value of a setting: true exactly when the text begins with one
/// of `Y`, `T`, `y`, `t` or `1`.
pub open spec fn truthy(s: Seq<u8>) -> bool {
    s.len() > 0 && (s[0] == 89 || s[0] == 84 || s[0] == 121 || s[0] == 116 || s[0] == 49)
}

pub open spec fn is_digit(b: u8) -> bool {
    48 <= b <= 57
}

pub open spec fn all_digits(s: Seq<u8>) -> bool {
    forall|i: int| 0 <= i < s.len() ==> is_digit(#[trigger] s[i])
}

/// The number that a run of decimal digits denotes; 0 for the empty run.
pub open spec fn decimal_value(s: Seq<u8>) -> nat
    decreases s.len(),
{
    if s.len() == 0 {
        0
    } else {
        decimal_value(s.drop_last()) * 10 + (s.last() - 48) as nat
    }
}

/// The value of a non-empty run of digits that does not exceed `limit`.
pub open spec fn magnitude(s: Seq<u8>, limit: nat) -> Option<nat> {
    if s.len() > 0 && all_digits(s) && decimal_value(s) <= limit {
        Some(decimal_value(s))
    } else {
        None
    }
}

/// What a decimal numeral denotes as an `i32`: an optional `+` or `-`, then
/// one or more digits and nothing else, the value within the type's range.
pub open spec fn parse_i32_spec(s: Seq<u8>) -> Option<i32> {
    if s.len() > 0 && s[0] == 45 {
        match magnitude(s.subrange(1, s.len() as int), 0x8000_0000) {
            Some(v) => Some((-(v as int)) as i32),
            None => None,
        }
    } else if s.len() > 0 && s[0] == 43 {
        match magnitude(s.subrange(1, s.len() as int), 0x7fff_ffff) {
            Some(v) => Some(v as i32),
            None => None,
        }
    } else {
        match magnitude(s, 0x7fff_ffff) {
            Some(v) => Some(v as i32),
            None => None,
        }
    }
}

/// What a decimal numeral denotes as a `usize`: an optional `+`, then one or
/// more digits and nothing else, the value within the type's range.
pub open spec fn parse_usize_spec(s: Seq<u8>) -> Option<usize> {
    if s.len() > 0 && s[0] == 43 {
        match magnitude(s.subrange(1, s.len() as int), usize::MAX as nat) {
            Some(v) => Some(v as usize),
            None => None,
        }
    } else {
        match magnitude(s, usize::MAX as nat) {
            Some(v) => Some(v as usize),
            None => None,
        }
    }
}

/// Space, tab, line feed, vertical tab, form feed and carriage return.
pub open spec fn is_space(b: u8) -> bool {
    b == 32 || (9 <= b <= 13)
}

/// The number of white-space bytes that `s` begins with.
pub open spec fn leading_spaces(s: Seq<u8>) -> nat
    decreases s.len(),
{
    if s.len() > 0 && is_space(s[0]) {
        1 + leading_spaces(s.drop_first())
    } else {
        0
    }
}

/// What a numeral denotes when white space may stand before it.
pub open spec fn wcstoi_spec(s: Seq<u8>) -> Option<i32> {
    parse_i32_spec(s.subrange(leading_spaces(s) as int, s.len() as int))
}

pub proof fn lemma_leading_spaces_bound(s: Seq<u8>)
    ensures
        leading_spaces(s) <= s.len(),
        forall|i: int| 0 <= i < leading_spaces(s) ==> is_space(#[trigger] s[i]),
        leading_spaces(s) < s.len() ==> !is_space(s[leading_spaces(s) as int]),
    decreases s.len(),
{
    if s.len() > 0 && is_space(s[0]) {
        let t = s.drop_first();
        lemma_leading_spaces_bound(t);
        assert forall|i: int| 0 <= i < leading_spaces(s) implies is_space(#[trigger] s[i]) by {
            if i > 0 {
                assert(s[i] == t[i - 1]);
            }
        }
        if leading_spaces(s) < s.len() {
            assert(s[leading_spaces(s) as int] == t[leading_spaces(t) as int]);
        }
    }
}

/// A run of spaces followed by a byte that is none has exactly that many
/// leading spaces.
pub proof fn lemma_leading_spaces_is(s: Seq<u8>, n: int)
    requires
        0 <= n <= s.len(),
        forall|i: int| 0 <= i < n ==> is_space(#[trigger] s[i]),
        n < s.len() ==> !is_space(s[n]),
    ensures
        leading_spaces(s) == n,
{
    lemma_leading_spaces_bound(s);
    let m = leading_spaces(s) as int;
    if m < n {
        assert(is_space(s[m]));
    } else if m > n {
        assert(is_space(s[n]));
    }
}

/// The value of a run of digits is no less than that of any run it begins
/// with.
pub proof fn lemma_decimal_prefix(s: Seq<u8>, k: int)
    requires
        0 <= k <= s.len(),
        all_digits(s),
    ensures
        decimal_value(s.subrange(0, k)) <= decimal_value(s),
    decreases s.len() - k,
{
    if k == s.len() {
        assert(s.subrange(0, k) == s);
    } else {
        let t = s.drop_last();
        assert(t.subrange(0, k) == s.subrange(0, k));
        assert forall|i: int| 0 <= i < t.len() implies is_digit(#[trigger] t[i]) by {
            assert(t[i] == s[i]);
        }
        lemma_decimal_prefix(t, k);
        assert(is_digit(s[s.len() - 1]));
    }
}

/// Compares two byte strings.
pub fn bytes_eq(a: &[u8], b: &[u8]) -> (r: bool)
    ensures
        r == (a@ == b@),
{
    if a.len() != b.len() {
        return false;
    }
    let mut i: usize = 0;
    while i < a.len()
        invariant
            i <= a.len(),
            a.len() == b.len(),
            a@.subrange(0, i as int) == b@.subrange(0, i as int),
        decreases a.len() - i,
    {
        if a[i] != b[i] {
            return false;
        }
        proof {
            assert(a@.subrange(0, i + 1) == a@.subrange(0, i as int).push(a@[i as int]));
            assert(b@.subrange(0, i + 1) == b@.subrange(0, i as int).push(b@[i as int]));
        }
        i += 1;
    }
    proof {
        assert(a@ == a@.subrange(0, a.len() as int));
        assert(b@ == b@.subrange(0, b.len() as int));
    }
    true
}

/// Whether `needle` stands in `s` at offset `at`.
pub fn matches_at(s: &[u8], needle: &[u8], at: usize) -> (r: bool)
    requires
        at + needle.len() <= s.len(),
    ensures
        r == occurs_at(s@, needle@, at as int),
{
    let n = needle.len();
    let mut i: usize = 0;
    while i < n
        invariant
            i <= n,
            n == needle.len(),
            at + n <= s.len(),
            s@.subrange(at as int, at + i) == needle@.subrange(0, i as int),
        decreases n - i,
    {
        if s[at + i] != needle[i] {
            proof {
                assert(s@.subrange(at as int, at + n)[i as int] == s@[at + i]);
            }
            return false;
        }
        proof {
            assert(s@.subrange(at as int, at + i + 1) == s@.subrange(at as int, at + i).push(
                s@[at + i],
            ));
            assert(needle@.subrange(0, i + 1) == needle@.subrange(0, i as int).push(
                needle@[i as int],
            ));
        }
        i += 1;
    }
    proof {
        assert(needle@ == needle@.subrange(0, n as int));
    }
    true
}

/// Whether `s` begins with `prefix`.
pub fn starts_with(s: &[u8], prefix: &[u8]) -> (r: bool)
    ensures
        r == is_prefix(prefix@, s@),
{
    if prefix.len() > s.len() {
        return false;
    }
    matches_at(s, prefix, 0)
}

/// Whether `needle` occurs in `s`.
pub fn contains(s: &[u8], needle: &[u8]) -> (r: bool)
    ensures
        r == has_substring(s@, needle@),
{
    if needle.len() > s.len() {
        return false;
    }
    if needle.len() == 0 {
        proof {
            assert(s@.subrange(0, 0) == needle@);
            assert(occurs_at(s@, needle@, 0));
        }
        return true;
    }
    let last: usize = s.len() - needle.len();
    let mut at: usize = 0;
    while at <= last
        invariant
            at <= last + 1,
            last == s.len() - needle.len(),
            0 < needle.len() <= s.len(),
            forall|k: int| 0 <= k < at ==> !occurs_at(s@, needle@, k),
        decreases last + 1 - at,
    {
        if matches_at(s, needle, at) {
            return true;
        }
        at += 1;
    }
    false
}

/// Reads a setting as a truth value.
pub fn bool_from_string(s: &[u8]) -> (r: bool)
    ensures
        r == truthy(s@),
{
    if s.len() == 0 {
        return false;
    }
    let c: u8 = s[0];
    c == 89 || c == 84 || c == 121 || c == 116 || c == 49
}

/// Reads the digits of `s` from `start` to its end.
fn parse_magnitude(s: &[u8], start: usize, limit: u64) -> (r: Option<u64>)
    requires
        start <= s.len(),
    ensures
        match magnitude(s@.subrange(start as int, s.len() as int), limit as nat) {
            Some(v) => r == Some(v as u64),
            None => r is None,
        },
{
    let ghost digits = s@.subrange(start as int, s.len() as int);
    if start == s.len() {
        return None;
    }
    let mut acc: u128 = 0;
    let mut i: usize = start;
    while i < s.len()
        invariant
            start <= i <= s.len(),
            digits == s@.subrange(start as int, s.len() as int),
            all_digits(digits.subrange(0, i - start)),
            acc == decimal_value(digits.subrange(0, i - start)),
            acc <= limit,
        decreases s.len() - i,
    {
        let c: u8 = s[i];
        proof {
            assert(digits[i - start] == c);
        }
        if c < DIGIT_ZERO || c > DIGIT_NINE {
            return None;
        }
        let ghost shorter = digits.subrange(0, i - start);
        let ghost longer = digits.subrange(0, i + 1 - start);
        proof {
            assert(longer.drop_last() == shorter);
            assert(longer.last() == c);
            assert forall|k: int| 0 <= k < longer.len() implies is_digit(#[trigger] longer[k]) by {
                if k < shorter.len() {
                    assert(longer[k] == shorter[k]);
                }
            }
        }
        let next: u128 = acc * 10 + (c - DIGIT_ZERO) as u128;
        if next > limit as u128 {
            proof {
                if all_digits(digits) {
                    lemma_decimal_prefix(digits, i + 1 - start);
                }
            }
            return None;
        }
        acc = next;
        i += 1;
    }
    proof {
        assert(digits.subrange(0, s.len() - start) == digits);
    }
    Some(acc as u64)
}

/// Reads a decimal numeral as an `i32`.
pub fn parse_i32(s: &[u8]) -> (r: Option<i32>)
    ensures
        r == parse_i32_spec(s@),
{
    if s.len() > 0 && s[0] == MINUS {
        match parse_magnitude(s, 1, 0x8000_0000) {
            Some(v) => Some((-(v as i64)) as i32),
            None => None,
        }
    } else if s.len() > 0 && s[0] == PLUS {
        match parse_magnitude(s, 1, 0x7fff_ffff) {
            Some(v) => Some(v as i32),
            None => None,
        }
    } else {
        proof {
            assert(s@.subrange(0, s.len() as int) == s@);
        }
        match parse_magnitude(s, 0, 0x7fff_ffff) {
            Some(v) => Some(v as i32),
            None => None,
        }
    }
}

/// Reads a decimal numeral as a `usize`.
pub fn parse_usize(s: &[u8]) -> (r: Option<usize>)
    ensures
        r == parse_usize_spec(s@),
{
    if s.len() > 0 && s[0] == PLUS {
        match parse_magnitude(s, 1, usize::MAX as u64) {
            Some(v) => Some(v as usize),
            None => None,
        }
    } else {
        proof {
            assert(s@.subrange(0, s.len() as int) == s@);
        }
        match parse_magnitude(s, 0, usize::MAX as u64) {
            Some(v) => Some(v as usize),
            None => None,
        }
    }
}

/// Reads a decimal numeral, which white space may precede, as an `i32`.
pub fn wcstoi(s: &[u8]) -> (r: Option<i32>)
    ensures
        r == wcstoi_spec(s@),
{
    let mut i: usize = 0;
    while i < s.len() && (s[i] == 32 || (9 <= s[i] && s[i] <= 13))
        invariant
            i <= s.len(),
            forall|k: int| 0 <= k < i ==> is_space(#[trigger] s@[k]),
        decreases s.len() - i,
    {
        i += 1;
    }
    proof {
        lemma_leading_spaces_is(s@, i as int);
    }
    let rest = vstd::slice::slice_subrange(s, i, s.len());
    parse_i32(rest)
}

} // verus!
