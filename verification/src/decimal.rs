//! Whole numbers in decimal notation, written and read.

use vstd::prelude::*;
use vstd::string::{StrSliceExecFns, StringExecFns};

verus! {

/// The character of a digit.
pub open spec fn digit_char(d: nat) -> char {
    if d == 0 {
        '0'
    } else if d == 1 {
        '1'
    } else if d == 2 {
        '2'
    } else if d == 3 {
        '3'
    } else if d == 4 {
        '4'
    } else if d == 5 {
        '5'
    } else if d == 6 {
        '6'
    } else if d == 7 {
        '7'
    } else if d == 8 {
        '8'
    } else {
        '9'
    }
}

/// The digit that a character stands for.
pub open spec fn digit_value(c: char) -> Option<nat> {
    if c == '0' {
        Some(0)
    } else if c == '1' {
        Some(1)
    } else if c == '2' {
        Some(2)
    } else if c == '3' {
        Some(3)
    } else if c == '4' {
        Some(4)
    } else if c == '5' {
        Some(5)
    } else if c == '6' {
        Some(6)
    } else if c == '7' {
        Some(7)
    } else if c == '8' {
        Some(8)
    } else if c == '9' {
        Some(9)
    } else {
        None
    }
}

/// A number in decimal notation, without leading zeros.
pub open spec fn spec_decimal(n: nat) -> Seq<char>
    decreases n,
{
    if n < 10 {
        seq![digit_char(n)]
    } else {
        spec_decimal(n / 10).push(digit_char(n % 10))
    }
}

/// The number that a run of digits stands for; zero for the empty run, and
/// `None` where a character is no digit.
pub open spec fn spec_digits(s: Seq<char>) -> Option<nat>
    decreases s.len(),
{
    if s.len() == 0 {
        Some(0)
    } else {
        match (spec_digits(s.drop_last()), digit_value(s.last())) {
            (Some(front), Some(d)) => Some(front * 10 + d),
            _ => None,
        }
    }
}

/// The text of one digit.
fn digit_text(d: u64) -> (r: &'static str)
    requires
        d < 10,
    ensures
        r@ == seq![digit_char(d as nat)],
{
    proof {
        reveal_strlit("0");
        reveal_strlit("1");
        reveal_strlit("2");
        reveal_strlit("3");
        reveal_strlit("4");
        reveal_strlit("5");
        reveal_strlit("6");
        reveal_strlit("7");
        reveal_strlit("8");
        reveal_strlit("9");
    }
    let r = if d == 0 {
        "0"
    } else if d == 1 {
        "1"
    } else if d == 2 {
        "2"
    } else if d == 3 {
        "3"
    } else if d == 4 {
        "4"
    } else if d == 5 {
        "5"
    } else if d == 6 {
        "6"
    } else if d == 7 {
        "7"
    } else if d == 8 {
        "8"
    } else {
        "9"
    };
    assert(r@ =~= seq![digit_char(d as nat)]);
    r
}

/// `n` in decimal notation, without leading zeros.
pub fn decimal(n: u64) -> (r: String)
    ensures
        r@ == spec_decimal(n as nat),
    decreases n,
{
    if n < 10 {
        String::from_str(digit_text(n))
    } else {
        let mut front = decimal(n / 10);
        front.append(digit_text(n % 10));
        assert(front@ =~= spec_decimal(n as nat));
        front
    }
}

/// The digit that a character stands for.
fn digit_of(c: char) -> (r: Option<u64>)
    ensures
        match r {
            Some(d) => digit_value(c) == Some(d as nat) && d < 10,
            None => digit_value(c) is None,
        },
{
    if c == '0' {
        Some(0)
    } else if c == '1' {
        Some(1)
    } else if c == '2' {
        Some(2)
    } else if c == '3' {
        Some(3)
    } else if c == '4' {
        Some(4)
    } else if c == '5' {
        Some(5)
    } else if c == '6' {
        Some(6)
    } else if c == '7' {
        Some(7)
    } else if c == '8' {
        Some(8)
    } else if c == '9' {
        Some(9)
    } else {
        None
    }
}

/// A run of digits that starts with digits of a value stands for no less.
proof fn lemma_digits_grow(s: Seq<char>, i: int)
    requires
        0 <= i <= s.len(),
        spec_digits(s) is Some,
    ensures
        spec_digits(s.take(i)) is Some,
        spec_digits(s.take(i))->0 <= spec_digits(s)->0,
    decreases s.len(),
{
    if i == s.len() {
        assert(s.take(i) == s);
    } else {
        assert(s.drop_last().take(i) == s.take(i));
        lemma_digits_grow(s.drop_last(), i);
    }
}

/// The number that the characters of `s` from `start` on stand for, where
/// there is at least one, all of them are digits and the number is no more
/// than `limit`; `None` otherwise.
pub open spec fn spec_bounded_number(s: Seq<char>, start: int, limit: nat) -> Option<nat> {
    if 0 <= start < s.len() {
        match spec_digits(s.skip(start)) {
            Some(v) => if v <= limit {
                Some(v)
            } else {
                None
            },
            None => None,
        }
    } else {
        None
    }
}

/// Reads the digits of `s` from the character `start` on, up to `limit`.
pub fn bounded_number(s: &str, start: usize, limit: u64) -> (r: Option<u64>)
    ensures
        match r {
            Some(v) => spec_bounded_number(s@, start as int, limit as nat) == Some(v as nat),
            None => spec_bounded_number(s@, start as int, limit as nat) is None,
        },
{
    let len = s.unicode_len();
    if start >= len {
        return None;
    }
    let ghost body = s@.skip(start as int);
    let mut value: u64 = 0;
    let mut i: usize = start;
    assert(body.take(0) =~= Seq::<char>::empty());
    while i < len
        invariant
            start <= i <= len,
            len == s@.len(),
            body == s@.skip(start as int),
            value <= limit,
            spec_digits(body.take(i - start)) == Some(value as nat),
        decreases len - i,
    {
        let c = s.get_char(i);
        proof {
            let upto = body.take(i - start + 1);
            assert(upto.drop_last() == body.take(i - start));
            assert(upto.last() == s@[i as int]);
        }
        match digit_of(c) {
            Some(d) => {
                if d > limit || value > (limit - d) / 10 {
                    proof {
                        if spec_digits(body) is Some {
                            lemma_digits_grow(body, i - start + 1);
                        }
                    }
                    return None;
                }
                value = value * 10 + d;
            },
            None => {
                proof {
                    if spec_digits(body) is Some {
                        lemma_digits_grow(body, i - start + 1);
                    }
                }
                return None;
            },
        }
        i += 1;
    }
    proof {
        assert(body.take(len - start) == body);
    }
    Some(value)
}

} // verus!
