//! Decimal numbers as text: reading a signed 32-bit integer and writing one.

use vstd::prelude::*;
use crate::text::{is_digit, digit};

verus! {

/// The value of a decimal digit.
pub open spec fn digit_value(c: char) -> int {
    c as int - '0' as int
}

/// The value of a run of decimal digits, most significant first.
pub open spec fn digits_value(s: Seq<char>) -> int
    decreases s.len(),
{
    if s.len() == 0 {
        0
    } else {
        digits_value(s.drop_last()) * 10 + digit_value(s.last())
    }
}

/// Every character of `s` is a decimal digit.
pub open spec fn all_digits(s: Seq<char>) -> bool {
    forall|i: int| 0 <= i < s.len() ==> is_digit(#[trigger] s[i])
}

/// What reading `s` as a signed 32-bit decimal gives: an optional sign, then
/// at least one digit, and a value that fits.
pub open spec fn parse_i32_spec(s: Seq<char>) -> Option<int> {
    let signed = s.len() > 0 && (s[0] == '-' || s[0] == '+');
    let body = if signed { s.subrange(1, s.len() as int) } else { s };
    let value = if s.len() > 0 && s[0] == '-' { -digits_value(body) } else { digits_value(body) };
    if body.len() == 0 || !all_digits(body) {
        None
    } else if i32::MIN <= value <= i32::MAX {
        Some(value)
    } else {
        None
    }
}

/// A prefix of a digit run is worth no more than the run.
pub proof fn lemma_digits_value_prefix(s: Seq<char>, k: int)
    requires
        all_digits(s),
        0 <= k <= s.len(),
    ensures
        0 <= digits_value(s.take(k)) <= digits_value(s),
    decreases s.len() - k,
{
    if k == s.len() {
        assert(s.take(k) == s);
        lemma_digits_value_nonneg(s);
    } else {
        lemma_digits_value_prefix(s, k + 1);
        let t = s.take(k + 1);
        assert(t.drop_last() == s.take(k));
        assert(t.last() == s[k]);
        assert(is_digit(s[k]));
        lemma_digits_value_nonneg(s.take(k));
    }
}

/// A digit run is worth at least zero.
pub proof fn lemma_digits_value_nonneg(s: Seq<char>)
    requires
        all_digits(s),
    ensures
        0 <= digits_value(s),
    decreases s.len(),
{
    if s.len() > 0 {
        assert(is_digit(s.last()));
        lemma_digits_value_nonneg(s.drop_last());
    }
}

/// Reads `v[from..to]` as a signed 32-bit decimal number.
#[verifier::loop_isolation(false)]
pub fn parse_i32(v: &Vec<char>, from: usize, to: usize) -> (r: Option<i32>)
    requires
        from <= to <= v.len(),
    ensures
        match r {
            Some(n) => parse_i32_spec(v@.subrange(from as int, to as int)) == Some(n as int),
            None => parse_i32_spec(v@.subrange(from as int, to as int)) is None,
        },
{
    let ghost s = v@.subrange(from as int, to as int);
    if from == to {
        return None;
    }
    let first = v[from];
    assert(s[0] == first);
    let negative = first == '-';
    let start: usize = if first == '-' || first == '+' { from + 1 } else { from };
    let ghost body = if first == '-' || first == '+' { s.subrange(1, s.len() as int) } else { s };
    assert(body == v@.subrange(start as int, to as int));
    if start == to {
        return None;
    }
    let mut acc: i64 = 0;
    let mut i: usize = start;
    while i < to
        invariant
            start <= i <= to <= v.len(),
            body == v@.subrange(start as int, to as int),
            all_digits(body.take(i - start)),
            acc == digits_value(body.take(i - start)),
            0 <= acc <= 0x8000_0000,
        decreases to - i,
    {
        let c = v[i];
        assert(body[i - start] == c);
        if !digit(c) {
            assert(!is_digit(body[i - start]));
            return None;
        }
        let d: i64 = (c as u32 - '0' as u32) as i64;
        let ghost t = body.take(i - start + 1);
        assert(t.drop_last() == body.take(i - start));
        assert(t.last() == c);
        assert(all_digits(t)) by {
            assert forall|k: int| 0 <= k < t.len() implies is_digit(#[trigger] t[k]) by {
                if k < t.len() - 1 {
                    assert(t[k] == body.take(i - start)[k]);
                }
            }
        }
        let next: i64 = acc * 10 + d;
        if next > 0x8000_0000 {
            proof {
                if all_digits(body) {
                    lemma_digits_value_prefix(body, i - start + 1);
                }
            }
            return None;
        }
        acc = next;
        i += 1;
    }
    assert(body.take(i - start) == body);
    if negative {
        Some((-acc) as i32)
    } else if acc > 0x7fff_ffff {
        None
    } else {
        Some(acc as i32)
    }
}

/// The character of a digit value.
pub open spec fn digit_char(d: int) -> char {
    (d + '0' as int) as char
}

/// The decimal digits of a natural number, without leading zeros.
pub open spec fn decimal_of(n: nat) -> Seq<char>
    decreases n,
{
    if n < 10 {
        seq![digit_char(n as int)]
    } else {
        decimal_of(n / 10).push(digit_char((n % 10) as int))
    }
}

/// The decimal text of an integer, with a minus sign before a negative one.
pub open spec fn int_text(n: int) -> Seq<char> {
    if n < 0 {
        seq!['-'] + decimal_of((-n) as nat)
    } else {
        decimal_of(n as nat)
    }
}

/// The decimal text of the natural number `n`.
pub fn u64_to_string(n: u64) -> (s: String)
    ensures
        s@ == decimal_of(n as nat),
{
    let mut rest: u64 = n;
    let ghost magnitude: nat = rest as nat;
    // Digits from the least significant one.
    let mut rev: Vec<char> = Vec::new();
    let first: u64 = rest % 10;
    rev.push(char_of_digit(first as u32));
    rest = rest / 10;
    while rest > 0
        invariant
            rev@.len() >= 1,
            decimal_of(magnitude) == if rest == 0 {
                rev@.reverse()
            } else {
                decimal_of(rest as nat) + rev@.reverse()
            },
        decreases rest,
    {
        let d: u64 = rest % 10;
        let ghost before = rev@;
        let ghost r0 = rest;
        rev.push(char_of_digit(d as u32));
        rest = rest / 10;
        proof {
            assert(rev@.reverse() == seq![digit_char(d as int)] + before.reverse());
            if r0 < 10 {
                assert(decimal_of(r0 as nat) == seq![digit_char(d as int)]);
            } else {
                assert(decimal_of(r0 as nat) == decimal_of(rest as nat).push(digit_char(d as int)));
                assert(decimal_of(rest as nat).push(digit_char(d as int)) + before.reverse()
                    == decimal_of(rest as nat) + (seq![digit_char(d as int)] + before.reverse()));
            }
        }
    }
    let mut s = String::new();
    let mut i: usize = rev.len();
    while i > 0
        invariant
            i <= rev.len(),
            s@ == rev@.reverse().take(rev.len() - i),
        decreases i,
    {
        i -= 1;
        s.push(rev[i]);
        assert(rev@.reverse().take(rev.len() - i) == rev@.reverse().take(rev.len() - i - 1).push(
            rev@[i as int],
        ));
    }
    assert(rev@.reverse().take(rev.len() as int) == rev@.reverse());
    s
}

/// The decimal text of `n`.
pub fn i32_to_string(n: i32) -> (s: String)
    ensures
        s@ == int_text(n as int),
{
    if n < 0 {
        let magnitude: u64 = (-(n as i64)) as u64;
        let mut s = String::new();
        s.push('-');
        s.append(u64_to_string(magnitude).as_str());
        assert(s@ == seq!['-'] + decimal_of(magnitude as nat));
        s
    } else {
        u64_to_string(n as u64)
    }
}

/// The character that writes the digit `d`.
pub fn char_of_digit(d: u32) -> (c: char)
    requires
        d < 10,
    ensures
        c == digit_char(d as int),
{
    if d == 0 {
        '0'
    } else if d == 1 {
        '1'
    } else if d == 2 {
        '2'
    } else if d == 3 {
        '3'
    } else if d == 4 {
        '4'
    } else if d == 5 {
        '5'
    } else if d == 6 {
        '6'
    } else if d == 7 {
        '7'
    } else if d == 8 {
        '8'
    } else {
        '9'
    }
}

} // verus!
