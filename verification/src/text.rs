//! Conversions between strings and sequences of characters.

use vstd::prelude::*;

verus! {

/// Appends one character to the end of a string, by `String::push`: the
/// string afterwards holds what it held before, followed by that character.
#[verifier::external_body]
pub(crate) fn push_char(s: &mut String, c: char)
    ensures
        final(s)@ == old(s)@.push(c),
{
    s.push(c)
}

/// Collects the characters of a string slice, in order.
pub fn chars_of(s: &str) -> (chars: Vec<char>)
    ensures
        chars@ == s@,
{
    let mut chars: Vec<char> = Vec::new();
    for c in it: s.chars()
        invariant
            it.seq() == s@,
            chars@ == it.seq().take(it.index() as int),
    {
        chars.push(c);
    }
    chars
}

/// Builds the string that holds the given characters in reverse order.
pub fn string_of_reversed(chars: &Vec<char>) -> (s: String)
    ensures
        s@ == chars@.reverse(),
{
    let mut s = String::new();
    let mut k: usize = chars.len();
    while k > 0
        invariant
            k <= chars.len(),
            s@ == chars@.reverse().take(chars.len() - k),
        decreases k,
    {
        k = k - 1;
        push_char(&mut s, chars[k]);
    }
    s
}

/// Tells whether two string slices hold the same characters.
pub fn same_text(a: &str, b: &str) -> (same: bool)
    ensures
        same == (a@ == b@),
{
    let xs: Vec<char> = chars_of(a);
    let ys: Vec<char> = chars_of(b);
    if xs.len() != ys.len() {
        return false;
    }
    let mut i: usize = 0;
    while i < xs.len()
        invariant
            i <= xs.len(),
            xs@ == a@,
            ys@ == b@,
            xs.len() == ys.len(),
            forall|k: int| 0 <= k < i ==> xs@[k] == ys@[k],
        decreases xs.len() - i,
    {
        if xs[i] != ys[i] {
            return false;
        }
        i = i + 1;
    }
    assert(xs@ =~= ys@);
    true
}

} // verus!
