//! Longest common subsequence by a table of subsequences.
//!
//! Every cell of the table holds a longest common subsequence of the two
//! prefixes it stands for. Where the last characters agree the cell extends
//! its diagonal neighbour. Where they differ it copies the neighbour that
//! drops the last character of the second prefix if that one is strictly
//! longer, and otherwise the neighbour that drops the last character of the
//! first: on a tie the first sequence gives way.

use vstd::prelude::*;
use vstd::string::StrSliceExecFns;
use crate::lcs::{lcs_len, lemma_common_bounded};
use crate::subsequence::{embeds, is_common_subsequence, lemma_embeds_by_prefix};
use crate::text::{chars_of, push_char};

verus! {

/// The content of the table's cell for the first `i` characters of `xs` and
/// the first `j` characters of `ys`.
pub open spec fn cell(xs: Seq<char>, ys: Seq<char>, i: nat, j: nat) -> Seq<char>
    recommends
        i <= xs.len(),
        j <= ys.len(),
    decreases i + j,
{
    if i == 0 || j == 0 {
        Seq::empty()
    } else if xs[i - 1] == ys[j - 1] {
        cell(xs, ys, (i - 1) as nat, (j - 1) as nat).push(xs[i - 1])
    } else {
        let left = cell(xs, ys, i, (j - 1) as nat);
        let up = cell(xs, ys, (i - 1) as nat, j);
        if left.len() > up.len() {
            left
        } else {
            up
        }
    }
}

/// The longest common subsequence of `xs` and `ys` that the table selects.
pub open spec fn lcs(xs: Seq<char>, ys: Seq<char>) -> Seq<char> {
    cell(xs, ys, xs.len(), ys.len())
}

/// The table has `rows + 1` rows of `cols + 1` cells, each with the content
/// that belongs there.
pub open spec fn is_table(
    xs: Seq<char>,
    ys: Seq<char>,
    table: Seq<Vec<String>>,
    rows: nat,
    cols: nat,
) -> bool {
    &&& table.len() == rows + 1
    &&& forall|i: int| 0 <= i <= rows ==> (#[trigger] table[i])@.len() == cols + 1
    &&& forall|i: int, j: int|
        0 <= i <= rows && 0 <= j <= cols ==> (#[trigger] table[i]@[j])@ == cell(
            xs,
            ys,
            i as nat,
            j as nat,
        )
}

/// Every cell holds a common subsequence of its two prefixes, of the greatest
/// length that such a subsequence can have.
pub proof fn lemma_cell_is_common(xs: Seq<char>, ys: Seq<char>, i: nat, j: nat)
    requires
        i <= xs.len(),
        j <= ys.len(),
    ensures
        cell(xs, ys, i, j).len() == lcs_len(xs, ys, i, j),
        embeds(cell(xs, ys, i, j), lcs_len(xs, ys, i, j), xs, i),
        embeds(cell(xs, ys, i, j), lcs_len(xs, ys, i, j), ys, j),
    decreases i + j,
{
    if i == 0 || j == 0 {
    } else if xs[i - 1] == ys[j - 1] {
        let shorter = cell(xs, ys, (i - 1) as nat, (j - 1) as nat);
        let k = lcs_len(xs, ys, (i - 1) as nat, (j - 1) as nat);
        lemma_cell_is_common(xs, ys, (i - 1) as nat, (j - 1) as nat);
        lemma_embeds_by_prefix(shorter, shorter.push(xs[i - 1]), k, xs, (i - 1) as nat);
        lemma_embeds_by_prefix(shorter, shorter.push(xs[i - 1]), k, ys, (j - 1) as nat);
    } else {
        lemma_cell_is_common(xs, ys, (i - 1) as nat, j);
        lemma_cell_is_common(xs, ys, i, (j - 1) as nat);
    }
}

/// The selected subsequence is a longest common subsequence: it is a
/// subsequence of both inputs, and no common subsequence is longer.
pub proof fn lemma_lcs_is_longest(xs: Seq<char>, ys: Seq<char>)
    ensures
        is_common_subsequence(lcs(xs, ys), xs, ys),
        lcs(xs, ys).len() == lcs_len(xs, ys, xs.len(), ys.len()),
        forall|c: Seq<char>| #[trigger]
            is_common_subsequence(c, xs, ys) ==> c.len() <= lcs(xs, ys).len(),
{
    lemma_cell_is_common(xs, ys, xs.len(), ys.len());
    assert forall|c: Seq<char>| #[trigger]
        is_common_subsequence(c, xs, ys) implies c.len() <= lcs(xs, ys).len() by {
        lemma_common_bounded(c, c.len(), xs, ys, xs.len(), ys.len());
    }
}

/// The table of subsequences and the table of lengths select subsequences of
/// one length, though not always the same one.
pub proof fn lemma_same_length_as_walk_back(xs: Seq<char>, ys: Seq<char>)
    ensures
        lcs(xs, ys).len() == crate::lcs::lcs(xs, ys).len(),
{
    lemma_lcs_is_longest(xs, ys);
    crate::lcs::lemma_lcs_is_longest(xs, ys);
}

/// Both lengths lie within their sequences, or one of them is zero, in which
/// case the table has only its border of empty cells and no character is
/// looked at.
pub open spec fn within(s1: Seq<char>, s2: Seq<char>, s1len: nat, s2len: nat) -> bool {
    ||| s1len == 0
    ||| s2len == 0
    ||| s1len <= s1.len() && s2len <= s2.len()
}

/// Fills the table of subsequences for the first `s1len` characters of `s1`
/// and the first `s2len` characters of `s2`.
pub fn calculate_lcs_dyn(s1: &[char], s2: &[char], s1len: usize, s2len: usize) -> (table: Vec<
    Vec<String>,
>)
    requires
        within(s1@, s2@, s1len as nat, s2len as nat),
    ensures
        is_table(s1@, s2@, table@, s1len as nat, s2len as nat),
{
    let mut top: Vec<String> = Vec::new();
    top.push(String::new());
    let mut j: usize = 0;
    while j < s2len
        invariant
            j <= s2len,
            top@.len() == j + 1,
            forall|c: int| 0 <= c <= j ==> (#[trigger] top@[c])@ == Seq::<char>::empty(),
        decreases s2len - j,
    {
        top.push(String::new());
        j = j + 1;
    }
    let mut lcs_matrix: Vec<Vec<String>> = Vec::new();
    lcs_matrix.push(top);

    let mut i: usize = 0;
    while i < s1len
        invariant
            i <= s1len,
            within(s1@, s2@, s1len as nat, s2len as nat),
            is_table(s1@, s2@, lcs_matrix@, i as nat, s2len as nat),
        decreases s1len - i,
    {
        let mut row: Vec<String> = Vec::new();
        row.push(String::new());
        let mut j: usize = 0;
        while j < s2len
            invariant
                j <= s2len,
                i < s1len,
                within(s1@, s2@, s1len as nat, s2len as nat),
                is_table(s1@, s2@, lcs_matrix@, i as nat, s2len as nat),
                row@.len() == j + 1,
                forall|c: int|
                    0 <= c <= j ==> (#[trigger] row@[c])@ == cell(
                        s1@,
                        s2@,
                        (i + 1) as nat,
                        c as nat,
                    ),
            decreases s2len - j,
        {
            let next: String = if s1[i] == s2[j] {
                let mut longer: String = lcs_matrix[i][j].clone();
                push_char(&mut longer, s1[i]);
                longer
            } else {
                let l1: &String = &row[j];
                let l2: &String = &lcs_matrix[i][j + 1];
                if l1.as_str().unicode_len() > l2.as_str().unicode_len() {
                    l1.clone()
                } else {
                    l2.clone()
                }
            };
            row.push(next);
            j = j + 1;
        }
        lcs_matrix.push(row);
        i = i + 1;
    }
    lcs_matrix
}

/// Computes the longest common subsequence of two strings from the table of
/// subsequences.
pub fn lcs_dyn(s1: &str, s2: &str) -> (found: String)
    ensures
        found@ == lcs(s1@, s2@),
        is_common_subsequence(found@, s1@, s2@),
        forall|c: Seq<char>| #[trigger]
            is_common_subsequence(c, s1@, s2@) ==> c.len() <= found@.len(),
{
    proof {
        lemma_lcs_is_longest(s1@, s2@);
    }
    let s1arr: Vec<char> = chars_of(s1);
    let s2arr: Vec<char> = chars_of(s2);
    let s1len: usize = s1arr.len();
    let s2len: usize = s2arr.len();

    let lcs_matrix = calculate_lcs_dyn(s1arr.as_slice(), s2arr.as_slice(), s1len, s2len);

    lcs_matrix[s1len][s2len].clone()
}

/// Computes the longest common subsequence of a pair of strings.
pub fn lcs2(input: (String, String)) -> (found: String)
    ensures
        found@ == lcs(input.0@, input.1@),
{
    lcs_dyn(input.0.as_str(), input.1.as_str())
}

} // verus!
