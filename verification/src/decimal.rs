//! Natural numbers in decimal notation.

use vstd::prelude::*;

use crate::chars;
use crate::text::chars_of;

verus! {

/// The digit with the value `d`.
pub open spec fn digit(d: nat) -> char {
    (('0' as u32) + d) as char
}

/// The value of a digit.
pub open spec fn digit_value(c: char) -> nat {
    (c as u32 - '0' as u32) as nat
}

/// The decimal notation of `n`, without leading zeros.
pub open spec fn decimal(n: nat) -> Seq<char>
    decreases n,
{
    if n < 10 {
        seq![digit(n)]
    } else {
        decimal(n / 10).push(digit(n % 10))
    }
}

/// The number that a sequence of digits denotes.
pub open spec fn digits_value(digits: Seq<char>) -> nat
    decreases digits.len(),
{
    if digits.len() == 0 {
        0
    } else {
        10 * digits_value(digits.drop_last()) + digit_value(digits.last())
    }
}

pub open spec fn are_digits(s: Seq<char>) -> bool {
    forall|i: int| 0 <= i < s.len() ==> chars::is_digit(#[trigger] s[i])
}

/// `s` without the plus sign at its start, where it has one.
pub open spec fn unsigned(s: Seq<char>) -> Seq<char> {
    if s.len() > 0 && s[0] == '+' {
        s.drop_first()
    } else {
        s
    }
}

/// The number that `s` denotes: at least one digit, after a plus sign or
/// without one, and nothing else.
pub open spec fn number_of(s: Seq<char>) -> Option<nat> {
    let digits = unsigned(s);
    if digits.len() > 0 && are_digits(digits) {
        Some(digits_value(digits))
    } else {
        None
    }
}

fn digit_char(d: u32) -> (result: char)
    requires
        d < 10,
    ensures
        result == digit(d as nat),
{
    let code: u8 = 48 + d as u8;
    code as char
}

pub fn format_u32(n: u32) -> (result: String)
    ensures
        result@ == decimal(n as nat),
    decreases n,
{
    if n < 10 {
        let mut out = String::new();
        out.push(digit_char(n));
        assert(out@ =~= seq![digit(n as nat)]);
        out
    } else {
        let mut out = format_u32(n / 10);
        out.push(digit_char(n % 10));
        out
    }
}

/// The number that `s` denotes, where it denotes one that a `usize` can hold.
pub fn parse_usize(s: &str) -> (result: Option<usize>)
    ensures
        match number_of(s@) {
            Some(n) => if n <= usize::MAX {
                result == Some(n as usize)
            } else {
                result is None
            },
            None => result is None,
        },
{
    let all = chars_of(s);
    let start: usize = if all.len() > 0 && all[0] == '+' {
        1
    } else {
        0
    };
    let ghost digits = unsigned(s@);
    assert(digits =~= s@.skip(start as int));
    if start == all.len() {
        return None;
    }
    let mut value: usize = 0;
    let mut too_large: bool = false;
    let mut i: usize = start;
    while i < all.len()
        invariant
            start <= i <= all.len(),
            all@ == s@,
            digits == s@.skip(start as int),
            digits == unsigned(s@),
            are_digits(digits.take(i - start)),
            !too_large ==> value == digits_value(digits.take(i - start)),
            too_large ==> digits_value(digits.take(i - start)) > usize::MAX,
        decreases all.len() - i,
    {
        let c = all[i];
        assert(digits[i - start] == c);
        if !('0' <= c && c <= '9') {
            assert(!chars::is_digit(digits[i - start]));
            return None;
        }
        let ghost seen = digits.take(i - start);
        let ghost longer = digits.take(i + 1 - start);
        assert(longer.drop_last() =~= seen);
        assert(longer =~= seen.push(c));
        let d: usize = (c as u8 - 48) as usize;
        if !too_large {
            match value.checked_mul(10) {
                Some(tens) => match tens.checked_add(d) {
                    Some(sum) => {
                        value = sum;
                    },
                    None => {
                        too_large = true;
                    },
                },
                None => {
                    too_large = true;
                },
            }
        }
        i = i + 1;
    }
    assert(digits.take(i - start) =~= digits);
    if too_large {
        None
    } else {
        Some(value)
    }
}

/// A number is what its decimal notation denotes.
pub proof fn law_number_of_decimal(n: nat)
    ensures
        number_of(decimal(n)) == Some(n),
{
    lemma_decimal(n);
    assert(decimal(n)[0] != '+');
}

proof fn lemma_decimal(n: nat)
    ensures
        decimal(n).len() > 0,
        are_digits(decimal(n)),
        digits_value(decimal(n)) == n,
    decreases n,
{
    if n < 10 {
        assert(decimal(n).drop_last() =~= Seq::<char>::empty());
        assert(decimal(n).last() == digit(n));
        assert(digits_value(decimal(n).drop_last()) == 0);
    } else {
        lemma_decimal(n / 10);
        assert(decimal(n).drop_last() =~= decimal(n / 10));
    }
}

}
