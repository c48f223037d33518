//! Decimal notation for 64-bit words: writing a number out and reading one in.

use vstd::prelude::*;
use crate::text::{chars_of, string_of_reversed};

verus! {

/// The character that stands for the digit `d`, for `d` from 0 to 9.
pub open spec fn digit_char(d: nat) -> char
    recommends
        d <= 9,
{
    ('0' as nat + d) as char
}

/// The character is one of `0` to `9`.
pub open spec fn is_digit(c: char) -> bool {
    '0' <= c && c <= '9'
}

/// The value of a digit character.
pub open spec fn digit_value(c: char) -> nat
    recommends
        is_digit(c),
{
    (c as nat - '0' as nat) as nat
}

/// The decimal notation of `n`, without sign or leading zeros.
pub open spec fn decimal(n: nat) -> Seq<char>
    decreases n,
{
    if n < 10 {
        seq![digit_char(n)]
    } else {
        decimal(n / 10).push(digit_char(n % 10))
    }
}

/// Every character of the sequence is a digit.
pub open spec fn all_digits(s: Seq<char>) -> bool {
    forall|i: int| 0 <= i < s.len() ==> is_digit(#[trigger] s[i])
}

/// The number that a sequence of digits denotes, the empty sequence
/// denoting zero.
pub open spec fn number(s: Seq<char>) -> nat
    decreases s.len(),
{
    if s.len() == 0 {
        0
    } else {
        10 * number(s.drop_last()) + digit_value(s.last())
    }
}

/// What is left of a numeral once one leading plus sign, if there is one, is
/// taken away.
pub open spec fn unsigned_part(s: Seq<char>) -> Seq<char> {
    if s.len() > 0 && s[0] == '+' {
        s.drop_first()
    } else {
        s
    }
}

/// The word that a numeral denotes: an optional plus sign and then one or
/// more digits, whose number fits in 64 bits. Anything else, a space or a
/// minus sign included, denotes nothing.
pub open spec fn parse(s: Seq<char>) -> Option<u64> {
    let digits = unsigned_part(s);
    if digits.len() > 0 && all_digits(digits) && number(digits) <= u64::MAX {
        Some(number(digits) as u64)
    } else {
        None
    }
}

/// The number that digits denote does not shrink when more digits follow.
pub proof fn lemma_number_grows(s: Seq<char>, k: nat)
    requires
        k <= s.len(),
    ensures
        number(s.take(k as int)) <= number(s),
    decreases s.len() - k,
{
    if k == s.len() {
        assert(s.take(k as int) =~= s);
    } else {
        lemma_number_grows(s, k + 1);
        assert(s.take(k as int + 1).drop_last() =~= s.take(k as int));
    }
}

/// The decimal notation of a number consists of digits and denotes that
/// number.
pub proof fn lemma_decimal_denotes(n: nat)
    ensures
        decimal(n).len() > 0,
        all_digits(decimal(n)),
        number(decimal(n)) == n,
        decimal(n)[0] != '+',
    decreases n,
{
    if n < 10 {
        assert(number(decimal(n).drop_last()) == 0);
    } else {
        lemma_decimal_denotes(n / 10);
        assert(decimal(n).drop_last() =~= decimal(n / 10));
    }
}

/// Reading a number's decimal notation gives the number back.
pub proof fn lemma_parse_decimal(n: u64)
    ensures
        parse(decimal(n as nat)) == Some(n),
{
    lemma_decimal_denotes(n as nat);
}

/// Returns the character for one digit.
fn digit_of(d: u8) -> (c: char)
    requires
        d <= 9,
    ensures
        c == digit_char(d as nat),
{
    (48u8 + d) as char
}

/// Writes a word out in decimal notation.
pub fn to_decimal(n: u64) -> (text: String)
    ensures
        text@ == decimal(n as nat),
{
    let mut digits: Vec<char> = Vec::new();
    let mut rest: u64 = n;
    while rest >= 10
        invariant
            decimal(n as nat) == decimal(rest as nat) + digits@.reverse(),
        decreases rest,
    {
        digits.push(digit_of((rest % 10) as u8));
        rest = rest / 10;
    }
    digits.push(digit_of(rest as u8));
    string_of_reversed(&digits)
}

/// Reads a word in decimal notation. Returns `None` for anything but an
/// optional plus sign followed by one or more digits whose number fits in
/// 64 bits.
pub fn parse_u64(text: &str) -> (value: Option<u64>)
    ensures
        value == parse(text@),
{
    let chars: Vec<char> = chars_of(text);
    let start: usize = if chars.len() > 0 && chars[0] == '+' {
        1
    } else {
        0
    };
    let ghost digits = unsigned_part(text@);
    if start == chars.len() {
        return None;
    }
    let mut value: u64 = 0;
    let mut i: usize = start;
    while i < chars.len()
        invariant
            start <= i <= chars.len(),
            start < chars.len(),
            digits == unsigned_part(text@),
            digits == chars@.skip(start as int),
            all_digits(digits.take(i - start)),
            value as nat == number(digits.take(i - start)),
        decreases chars.len() - i,
    {
        let c: char = chars[i];
        let ghost seen = digits.take(i - start);
        let ghost next = digits.take(i - start + 1);
        proof {
            assert(next.drop_last() =~= seen);
        }
        if !(c >= '0' && c <= '9') {
            assert(!is_digit(digits[i - start]));
            return None;
        }
        let d: u64 = (c as u32 - '0' as u32) as u64;
        let shifted: Option<u64> = value.checked_mul(10);
        let grown: Option<u64> = match shifted {
            Some(s) => s.checked_add(d),
            None => None,
        };
        match grown {
            Some(g) => {
                value = g;
            },
            None => {
                proof {
                    lemma_number_grows(digits, (i - start + 1) as nat);
                }
                return None;
            },
        }
        assert forall|p: int| 0 <= p < next.len() implies is_digit(#[trigger] next[p]) by {
            if p < seen.len() {
                assert(next[p] == seen[p]);
            }
        }
        i = i + 1;
    }
    assert(digits.take(i - start) =~= digits);
    Some(value)
}

} // verus!
