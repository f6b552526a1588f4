//! Unsigned decimal numbers as text.

use vstd::prelude::*;

verus! {

/// Whether `c` is one of `0` to `9`.
pub open spec fn digit(c: char) -> bool {
    '0' <= c <= '9'
}

/// The number that the digit `c` stands for.
pub open spec fn digit_value(c: char) -> int {
    c as int - '0' as int
}

/// The digit that stands for `d`, for `d` below ten.
pub open spec fn digit_char(d: int) -> char {
    (d + '0' as int) as char
}

/// Whether `s` holds nothing but digits.
pub open spec fn all_digits(s: Seq<char>) -> bool {
    forall|i: int| 0 <= i < s.len() ==> digit(#[trigger] s[i])
}

/// The number written by the digits `s`, most significant first.
pub open spec fn decimal_value(s: Seq<char>) -> int
    decreases s.len(),
{
    if s.len() == 0 {
        0
    } else {
        decimal_value(s.drop_last()) * 10 + digit_value(s.last())
    }
}

/// The decimal digits of `n`, most significant first, without leading zeros.
pub open spec fn decimal_digits(n: nat) -> Seq<char>
    decreases n,
{
    if n < 10 {
        seq![digit_char(n as int)]
    } else {
        decimal_digits(n / 10).push(digit_char((n % 10) as int))
    }
}

/// What `s` denotes as an unsigned 64-bit decimal number: an optional `+`,
/// then one or more digits whose value fits. Anything else denotes nothing.
pub open spec fn parsed_u64(s: Seq<char>) -> Option<u64> {
    if s.len() > 0 && s[0] == '+' {
        parsed_digits(s.drop_first())
    } else {
        parsed_digits(s)
    }
}

/// What the digits `s` denote: their value, if there is at least one digit,
/// nothing but digits, and the value fits in 64 bits.
pub open spec fn parsed_digits(s: Seq<char>) -> Option<u64> {
    if s.len() > 0 && all_digits(s) && decimal_value(s) <= u64::MAX {
        Some(decimal_value(s) as u64)
    } else {
        None
    }
}

proof fn lemma_decimal_value_prefix(s: Seq<char>, n: int)
    requires
        all_digits(s),
        0 <= n <= s.len(),
    ensures
        0 <= decimal_value(s.take(n)) <= decimal_value(s),
    decreases s.len() - n,
{
    if n == s.len() {
        assert(s.take(n) == s);
        lemma_decimal_value_nonnegative(s);
    } else {
        lemma_decimal_value_prefix(s, n + 1);
        let t = s.take(n + 1);
        assert(t.drop_last() == s.take(n));
        assert(t.last() == s[n]);
        assert(digit(s[n]));
    }
}

proof fn lemma_decimal_value_nonnegative(s: Seq<char>)
    requires
        all_digits(s),
    ensures
        0 <= decimal_value(s),
    decreases s.len(),
{
    if s.len() > 0 {
        let t = s.drop_last();
        assert forall|i: int| 0 <= i < t.len() implies digit(#[trigger] t[i]) by {
            assert(t[i] == s[i]);
        }
        lemma_decimal_value_nonnegative(t);
        assert(digit(s.last()));
    }
}

/// Reads `v` as an unsigned decimal number.
pub fn parse_u64(v: &Vec<char>) -> (r: Option<u64>)
    ensures
        r == parsed_u64(v@),
{
    let start: usize = if v.len() > 0 && v[0] == '+' {
        1
    } else {
        0
    };
    let ghost digits = v@.skip(start as int);
    assert(digits == if v@.len() > 0 && v@[0] == '+' {
        v@.drop_first()
    } else {
        v@
    });
    assert(parsed_u64(v@) == parsed_digits(digits));
    if start == v.len() {
        return None;
    }
    let mut acc: u64 = 0;
    let mut i: usize = start;
    assert(digits.take(0) == Seq::<char>::empty());
    while i < v.len()
        invariant
            start <= i <= v.len(),
            digits == v@.skip(start as int),
            parsed_u64(v@) == parsed_digits(digits),
            all_digits(digits.take(i - start)),
            acc == decimal_value(digits.take(i - start)),
        decreases v.len() - i,
    {
        let c = v[i];
        let ghost next = digits.take(i - start + 1);
        proof {
            assert(next.drop_last() == digits.take(i - start));
            assert(next.last() == c);
        }
        if !('0' <= c && c <= '9') {
            assert(!digit(digits[i - start]));
            return None;
        }
        let d: u64 = (c as u64) - ('0' as u64);
        assert forall|k: int| 0 <= k < next.len() implies digit(#[trigger] next[k]) by {
            if k < i - start {
                assert(next[k] == digits.take(i - start)[k]);
            }
        }
        if acc > (u64::MAX - d) / 10 {
            proof {
                assert(decimal_value(next) > u64::MAX);
                if all_digits(digits) {
                    lemma_decimal_value_prefix(digits, i - start + 1);
                }
            }
            return None;
        }
        acc = acc * 10 + d;
        i += 1;
    }
    assert(digits.take(i - start) == digits);
    Some(acc)
}

/// Appends the decimal digits of `n` to `out`.
pub fn push_decimal(out: &mut Vec<char>, n: u64)
    ensures
        final(out)@ == old(out)@ + decimal_digits(n as nat),
    decreases n,
{
    if n >= 10 {
        push_decimal(out, n / 10);
    }
    let d: u8 = (n % 10) as u8;
    let c: char = (('0' as u8) + d) as char;
    assert(c == digit_char((n % 10) as int));
    out.push(c);
    assert(out@ == old(out)@ + decimal_digits(n as nat));
}

/// The decimal digits of `n`.
pub fn decimal_of(n: u64) -> (out: Vec<char>)
    ensures
        out@ == decimal_digits(n as nat),
{
    let mut out: Vec<char> = Vec::new();
    push_decimal(&mut out, n);
    out
}

/// The decimal form of `v`, with a minus sign before the digits of a negative
/// number.
pub open spec fn signed_decimal(v: int) -> Seq<char> {
    if v < 0 {
        seq!['-'] + decimal_digits((-v) as nat)
    } else {
        decimal_digits(v as nat)
    }
}

/// Appends the decimal form of `v` to `out`.
pub fn push_signed_decimal(out: &mut Vec<char>, v: i64)
    ensures
        final(out)@ == old(out)@ + signed_decimal(v as int),
{
    if v < 0 {
        let magnitude: u64 = ((-(v + 1)) as u64) + 1;
        out.push('-');
        push_decimal(out, magnitude);
        assert(out@ == old(out)@ + (seq!['-'] + decimal_digits((-v) as nat)));
    } else {
        push_decimal(out, v as u64);
    }
}

} // verus!
