//! Decimal and boolean parsing of textual values.
use vstd::prelude::*;
use crate::text::{ascii_lower, ascii_lowercase_chars, chars_eq, chars_of};

verus! {

/// Whether `c` is an ASCII decimal digit.
pub open spec fn is_digit(c: char) -> bool {
    '0' <= c && c <= '9'
}

/// The number that the decimal digits `d` denote.
pub open spec fn digits_value(d: Seq<char>) -> nat
    decreases d.len(),
{
    if d.len() == 0 {
        0
    } else {
        digits_value(d.drop_last()) * 10 + ((d.last() as u32) - ('0' as u32)) as nat
    }
}

/// `s` without a leading `+`.
pub open spec fn digits_part(s: Seq<char>) -> Seq<char> {
    if s.len() > 0 && s[0] == '+' {
        s.drop_first()
    } else {
        s
    }
}

/// Whether every character of `d` is a digit.
pub open spec fn all_digits(d: Seq<char>) -> bool {
    forall|i: int| 0 <= i < d.len() ==> is_digit(#[trigger] d[i])
}

/// The number written in decimal by `s`: an optional `+` followed by at least one ASCII
/// digit, and nothing else (what `str::parse` accepts for an unsigned integer type, before
/// the range check).
pub open spec fn decimal_value(s: Seq<char>) -> Option<nat> {
    let d = digits_part(s);
    if d.len() > 0 && all_digits(d) {
        Some(digits_value(d))
    } else {
        None
    }
}

/// `s` parsed as an unsigned integer no larger than `max`.
pub open spec fn decimal_at_most(s: Seq<char>, max: nat) -> Option<nat> {
    match decimal_value(s) {
        Some(n) => if n <= max { Some(n) } else { None },
        None => None,
    }
}

proof fn lemma_digits_value_grows(d: Seq<char>, i: int)
    requires
        0 <= i <= d.len(),
        forall|k: int| 0 <= k < d.len() ==> is_digit(#[trigger] d[k]),
    ensures
        digits_value(d.take(i)) <= digits_value(d),
    decreases d.len() - i,
{
    if i < d.len() {
        lemma_digits_value_grows(d.drop_last(), if i < d.len() { i } else { i - 1 });
        assert(d.drop_last().take(i) =~= d.take(i));
    } else {
        assert(d.take(i) =~= d);
    }
}

/// The decimal number in `s`, provided it is at most `max`.
fn parse_bounded(s: &str, max: u64) -> (r: Option<u64>)
    ensures
        match r {
            Some(n) => decimal_at_most(s@, max as nat) == Some(n as nat),
            None => decimal_at_most(s@, max as nat) is None,
        },
{
    let v = chars_of(s);
    let start: usize = if v.len() > 0 && v[0] == '+' { 1 } else { 0 };
    let ghost d = digits_part(s@);
    assert(d =~= s@.subrange(start as int, s@.len() as int));
    if start >= v.len() {
        return None;
    }
    let mut acc: u128 = 0;
    let mut i: usize = start;
    while i < v.len()
        invariant
            v@ == s@,
            start <= i <= v.len(),
            d == s@.subrange(start as int, s@.len() as int),
            d == digits_part(s@),
            forall|k: int| 0 <= k < i - start ==> is_digit(#[trigger] d[k]),
            acc as nat == digits_value(d.take(i - start)),
            acc <= max as u128,
        decreases v.len() - i,
    {
        let c = v[i];
        if !('0' <= c && c <= '9') {
            assert(!is_digit(d[i - start]));
            assert(decimal_value(s@) is None);
            return None;
        }
        let digit: u128 = ((c as u32) - ('0' as u32)) as u128;
        assert(d.take(i + 1 - start).drop_last() =~= d.take(i - start));
        acc = acc * 10 + digit;
        if acc > max as u128 {
            proof {
                if decimal_value(s@) is Some {
                    assert(forall|k: int| 0 <= k < d.len() ==> is_digit(#[trigger] d[k]));
                    lemma_digits_value_grows(d, i + 1 - start);
                    assert(digits_value(d) > max);
                }
            }
            return None;
        }
        i = i + 1;
    }
    assert(d.take(d.len() as int) =~= d);
    Some(acc as u64)
}

/// `s` parsed as a `u64` (what `str::parse::<u64>` returns, as an `Option`).
pub fn parse_u64(s: &str) -> (r: Option<u64>)
    ensures
        match r {
            Some(n) => decimal_at_most(s@, u64::MAX as nat) == Some(n as nat),
            None => decimal_at_most(s@, u64::MAX as nat) is None,
        },
{
    parse_bounded(s, u64::MAX)
}

/// `s` parsed as a `u32`.
pub fn parse_u32(s: &str) -> (r: Option<u32>)
    ensures
        match r {
            Some(n) => decimal_at_most(s@, u32::MAX as nat) == Some(n as nat),
            None => decimal_at_most(s@, u32::MAX as nat) is None,
        },
{
    match parse_bounded(s, u32::MAX as u64) {
        Some(n) => Some(n as u32),
        None => None,
    }
}

/// `s` parsed as a `u16`.
pub fn parse_u16(s: &str) -> (r: Option<u16>)
    ensures
        match r {
            Some(n) => decimal_at_most(s@, u16::MAX as nat) == Some(n as nat),
            None => decimal_at_most(s@, u16::MAX as nat) is None,
        },
{
    match parse_bounded(s, u16::MAX as u64) {
        Some(n) => Some(n as u16),
        None => None,
    }
}

/// The truth value a setting spells, ignoring ASCII case: `1`, `true`, `yes`, `on` for true
/// and `0`, `false`, `no`, `off` for false.
pub open spec fn bool_of(s: Seq<char>) -> Option<bool> {
    let l = ascii_lower(s);
    if l == "1"@ || l == "true"@ || l == "yes"@ || l == "on"@ {
        Some(true)
    } else if l == "0"@ || l == "false"@ || l == "no"@ || l == "off"@ {
        Some(false)
    } else {
        None
    }
}

fn is_word(l: &Vec<char>, w: &str) -> (r: bool)
    ensures
        r == (l@ == w@),
{
    let c = chars_of(w);
    chars_eq(l, &c)
}

/// `value` read as a truth value.
pub fn parse_bool(value: &str) -> (r: Option<bool>)
    ensures
        r == bool_of(value@),
{
    let l = ascii_lowercase_chars(value);
    if is_word(&l, "1") || is_word(&l, "true") || is_word(&l, "yes") || is_word(&l, "on") {
        Some(true)
    } else if is_word(&l, "0") || is_word(&l, "false") || is_word(&l, "no") || is_word(&l, "off") {
        Some(false)
    } else {
        None
    }
}

} // verus!
