//! Decimal notation for unsigned 128-bit integers.
//!
//! A numeral is an optional `+` followed by one or more ASCII digits. Nothing
//! else is accepted: no whitespace, no `-`, no separators, no digits of other
//! scripts. A numeral whose value does not fit in 128 bits has no value.

use vstd::prelude::*;
use vstd::string::*;

verus! {

/// Whether `c` is one of the ASCII digits `0` to `9`.
pub open spec fn is_digit(c: char) -> bool {
    '0' <= c && c <= '9'
}

/// The number a digit stands for.
pub open spec fn digit_value(c: char) -> nat
    recommends
        is_digit(c),
{
    (c as int - '0' as int) as nat
}

/// Whether every character of `s` is an ASCII digit.
pub open spec fn all_digits(s: Seq<char>) -> bool {
    forall|i: int| 0 <= i < s.len() ==> is_digit(#[trigger] s[i])
}

/// The number that a run of digits denotes in base ten, most significant
/// digit first. The empty run denotes zero.
pub open spec fn digits_value(s: Seq<char>) -> nat
    decreases s.len(),
{
    if s.len() == 0 {
        0
    } else {
        10 * digits_value(s.drop_last()) + digit_value(s.last())
    }
}

/// The digits of a numeral: `s` without its leading `+`, if it has one.
pub open spec fn unsigned_body(s: Seq<char>) -> Seq<char> {
    if s.len() > 0 && s[0] == '+' {
        s.subrange(1, s.len() as int)
    } else {
        s
    }
}

/// Whether `s` is a numeral: an optional `+`, then at least one digit and
/// nothing but digits.
pub open spec fn is_numeral(s: Seq<char>) -> bool {
    unsigned_body(s).len() > 0 && all_digits(unsigned_body(s))
}

/// The value of `s` as an unsigned 128-bit integer: defined exactly when `s`
/// is a numeral whose value is at most `u128::MAX`.
pub open spec fn parse_decimal(s: Seq<char>) -> Option<u128> {
    if is_numeral(s) && digits_value(unsigned_body(s)) <= u128::MAX {
        Some(digits_value(unsigned_body(s)) as u128)
    } else {
        None
    }
}

/// A run of digits is worth at least as much as any of its prefixes.
pub proof fn lemma_prefix_value_le(s: Seq<char>, k: int)
    requires
        0 <= k <= s.len(),
    ensures
        digits_value(s.subrange(0, k)) <= digits_value(s),
    decreases s.len(),
{
    if k == s.len() {
        assert(s.subrange(0, k) =~= s);
    } else {
        lemma_prefix_value_le(s.drop_last(), k);
        assert(s.drop_last().subrange(0, k) =~= s.subrange(0, k));
    }
}

/// Appending one digit multiplies the value by ten and adds the digit.
pub proof fn lemma_value_push(s: Seq<char>, c: char)
    ensures
        digits_value(s.push(c)) == 10 * digits_value(s) + digit_value(c),
{
    assert(s.push(c).drop_last() =~= s);
}

/// A string with a character outside ASCII is no numeral.
proof fn lemma_non_ascii_is_no_numeral(s: Seq<char>)
    requires
        !vstd::utf8::is_ascii_chars(s),
    ensures
        !is_numeral(s),
{
    let i = choose|i: int| 0 <= i < s.len() && !('\0' <= #[trigger] s[i] && s[i] <= '\u{7f}');
    let body = unsigned_body(s);
    if body.len() == s.len() {
        assert(body =~= s);
        assert(!is_digit(body[i]));
    } else {
        assert(s[0] == '+');
        assert(i > 0);
        assert(body[i - 1] == s[i]);
        assert(!is_digit(body[i - 1]));
    }
}

/// Reads `s` as a decimal numeral.
///
/// Returns the value when `s` is an optional `+` followed by one or more
/// ASCII digits whose value fits in 128 bits, and `None` for every other
/// string.
pub fn parse_u128(s: &str) -> (r: Option<u128>)
    ensures
        r == parse_decimal(s@),
{
    if !s.is_ascii() {
        proof {
            lemma_non_ascii_is_no_numeral(s@);
        }
        return None;
    }
    let bytes = s.as_bytes();
    proof {
        is_ascii_spec_bytes(s);
    }
    let n: usize = bytes.len();
    assert(n == s@.len());
    assert(forall|j: int| 0 <= j < n ==> bytes@[j] == #[trigger] s@[j] as u8);
    let start: usize = if n > 0 && bytes[0] == 43u8 {
        1
    } else {
        0
    };
    let ghost body = unsigned_body(s@);
    assert(body =~= s@.subrange(start as int, n as int));
    if start == n {
        return None;
    }
    let mut acc: u128 = 0;
    let mut i: usize = start;
    while i < n
        invariant
            start <= i <= n,
            n == s@.len(),
            n == bytes@.len(),
            body == s@.subrange(start as int, n as int),
            body == unsigned_body(s@),
            body.len() > 0,
            vstd::utf8::is_ascii_chars(s@),
            forall|j: int| 0 <= j < n ==> bytes@[j] == #[trigger] s@[j] as u8,
            all_digits(body.subrange(0, i - start)),
            acc == digits_value(body.subrange(0, i - start)),
        decreases n - i,
    {
        let b: u8 = bytes[i];
        let ghost c: char = s@[i as int];
        let ghost seen = body.subrange(0, i - start);
        assert(body[i - start] == c);
        assert('\0' <= c && c <= '\u{7f}');
        assert(b == c as u8);
        if b < 48u8 || b > 57u8 {
            assert(!is_digit(body[i - start]));
            return None;
        }
        assert(is_digit(c));
        let d: u128 = (b - 48u8) as u128;
        assert(d == digit_value(c));
        proof {
            assert(body.subrange(0, i - start + 1) =~= seen.push(c));
            lemma_value_push(seen, c);
            lemma_prefix_value_le(body, i - start + 1);
        }
        let scaled = match acc.checked_mul(10) {
            Some(v) => v,
            None => {
                return None;
            },
        };
        acc = match scaled.checked_add(d) {
            Some(v) => v,
            None => {
                return None;
            },
        };
        i = i + 1;
    }
    assert(body.subrange(0, n - start) =~= body);
    Some(acc)
}

} // verus!
