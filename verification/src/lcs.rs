//! Longest common subsequence by a table of lengths and a walk back through it.
//!
//! The table holds, for every pair of prefix lengths, the length of a longest
//! common subsequence of the two prefixes. The walk starts at the full
//! lengths. Where the last characters agree it takes that character and
//! shortens both prefixes. Where they differ it shortens the first prefix if
//! that keeps strictly more than shortening the second would, and otherwise
//! shortens the second: on a tie the second sequence gives way.

use std::collections::VecDeque;
use vstd::prelude::*;
use crate::subsequence::{
    embeds, is_common_subsequence, lemma_embeds_by_prefix, lemma_embeds_shorter,
};
use crate::text::{chars_of, string_of_reversed};

verus! {

/// The length of a longest common subsequence of the first `i` characters of
/// `xs` and the first `j` characters of `ys`.
pub open spec fn lcs_len(xs: Seq<char>, ys: Seq<char>, i: nat, j: nat) -> nat
    recommends
        i <= xs.len(),
        j <= ys.len(),
    decreases i + j,
{
    if i == 0 || j == 0 {
        0
    } else if xs[i - 1] == ys[j - 1] {
        1 + lcs_len(xs, ys, (i - 1) as nat, (j - 1) as nat)
    } else {
        let up = lcs_len(xs, ys, (i - 1) as nat, j);
        let left = lcs_len(xs, ys, i, (j - 1) as nat);
        if up > left {
            up
        } else {
            left
        }
    }
}

/// The subsequence that the walk back through `tab` collects, started at
/// prefix lengths `i` and `j`.
pub open spec fn trace_back(
    xs: Seq<char>,
    ys: Seq<char>,
    tab: Seq<VecDeque<usize>>,
    i: nat,
    j: nat,
) -> Seq<char>
    recommends
        i <= xs.len(),
        j <= ys.len(),
        covers(tab, xs.len(), ys.len()),
    decreases i + j,
{
    if i == 0 || j == 0 {
        Seq::empty()
    } else if xs[i - 1] == ys[j - 1] {
        trace_back(xs, ys, tab, (i - 1) as nat, (j - 1) as nat).push(xs[i - 1])
    } else if tab[i - 1]@[j as int] > tab[i as int]@[j - 1] {
        trace_back(xs, ys, tab, (i - 1) as nat, j)
    } else {
        trace_back(xs, ys, tab, i, (j - 1) as nat)
    }
}

/// The table has a cell for every pair of prefix lengths up to `m` and `n`.
pub open spec fn covers(tab: Seq<VecDeque<usize>>, m: nat, n: nat) -> bool {
    &&& tab.len() > m
    &&& forall|i: int| 0 <= i <= m ==> (#[trigger] tab[i])@.len() > n
}

/// Every cell of the table up to row `rows` holds the length of a longest
/// common subsequence of the prefixes it stands for.
pub open spec fn holds_lengths(
    xs: Seq<char>,
    ys: Seq<char>,
    tab: Seq<VecDeque<usize>>,
    rows: nat,
) -> bool {
    forall|i: int, j: int|
        0 <= i <= rows && 0 <= j <= ys.len() ==> (#[trigger] tab[i]@[j]) as nat == lcs_len(
            xs,
            ys,
            i as nat,
            j as nat,
        )
}

/// The longest common subsequence of the first `i` characters of `xs` and the
/// first `j` characters of `ys` that the walk back selects.
pub open spec fn lcs_of(xs: Seq<char>, ys: Seq<char>, i: nat, j: nat) -> Seq<char>
    recommends
        i <= xs.len(),
        j <= ys.len(),
    decreases i + j,
{
    if i == 0 || j == 0 {
        Seq::empty()
    } else if xs[i - 1] == ys[j - 1] {
        lcs_of(xs, ys, (i - 1) as nat, (j - 1) as nat).push(xs[i - 1])
    } else if lcs_len(xs, ys, (i - 1) as nat, j) > lcs_len(xs, ys, i, (j - 1) as nat) {
        lcs_of(xs, ys, (i - 1) as nat, j)
    } else {
        lcs_of(xs, ys, i, (j - 1) as nat)
    }
}

/// The longest common subsequence of `xs` and `ys` that the walk back selects.
pub open spec fn lcs(xs: Seq<char>, ys: Seq<char>) -> Seq<char> {
    lcs_of(xs, ys, xs.len(), ys.len())
}

/// A longest common subsequence is no longer than either prefix.
pub proof fn lemma_lcs_len_bounded(xs: Seq<char>, ys: Seq<char>, i: nat, j: nat)
    ensures
        lcs_len(xs, ys, i, j) <= i,
        lcs_len(xs, ys, i, j) <= j,
    decreases i + j,
{
    if i == 0 || j == 0 {
    } else {
        lemma_lcs_len_bounded(xs, ys, (i - 1) as nat, (j - 1) as nat);
        lemma_lcs_len_bounded(xs, ys, (i - 1) as nat, j);
        lemma_lcs_len_bounded(xs, ys, i, (j - 1) as nat);
    }
}

/// On a table of true lengths the walk back collects the selected longest
/// common subsequence.
pub proof fn lemma_trace_back_on_lengths(
    xs: Seq<char>,
    ys: Seq<char>,
    tab: Seq<VecDeque<usize>>,
    i: nat,
    j: nat,
)
    requires
        i <= xs.len(),
        j <= ys.len(),
        holds_lengths(xs, ys, tab, xs.len()),
    ensures
        trace_back(xs, ys, tab, i, j) == lcs_of(xs, ys, i, j),
    decreases i + j,
{
    if i == 0 || j == 0 {
    } else if xs[i - 1] == ys[j - 1] {
        lemma_trace_back_on_lengths(xs, ys, tab, (i - 1) as nat, (j - 1) as nat);
    } else {
        lemma_trace_back_on_lengths(xs, ys, tab, (i - 1) as nat, j);
        lemma_trace_back_on_lengths(xs, ys, tab, i, (j - 1) as nat);
    }
}

/// The selected subsequence has the length that the table records, and its
/// characters occur in order in both prefixes.
pub proof fn lemma_lcs_of_is_common(xs: Seq<char>, ys: Seq<char>, i: nat, j: nat)
    requires
        i <= xs.len(),
        j <= ys.len(),
    ensures
        lcs_of(xs, ys, i, j).len() == lcs_len(xs, ys, i, j),
        embeds(lcs_of(xs, ys, i, j), lcs_len(xs, ys, i, j), xs, i),
        embeds(lcs_of(xs, ys, i, j), lcs_len(xs, ys, i, j), ys, j),
    decreases i + j,
{
    if i == 0 || j == 0 {
    } else if xs[i - 1] == ys[j - 1] {
        let shorter = lcs_of(xs, ys, (i - 1) as nat, (j - 1) as nat);
        let k = lcs_len(xs, ys, (i - 1) as nat, (j - 1) as nat);
        lemma_lcs_of_is_common(xs, ys, (i - 1) as nat, (j - 1) as nat);
        lemma_embeds_by_prefix(shorter, shorter.push(xs[i - 1]), k, xs, (i - 1) as nat);
        lemma_embeds_by_prefix(shorter, shorter.push(xs[i - 1]), k, ys, (j - 1) as nat);
    } else {
        lemma_lcs_of_is_common(xs, ys, (i - 1) as nat, j);
        lemma_lcs_of_is_common(xs, ys, i, (j - 1) as nat);
    }
}

/// No common subsequence of two prefixes is longer than the length that the
/// table records for them.
pub proof fn lemma_common_bounded(
    c: Seq<char>,
    k: nat,
    xs: Seq<char>,
    ys: Seq<char>,
    i: nat,
    j: nat,
)
    requires
        embeds(c, k, xs, i),
        embeds(c, k, ys, j),
    ensures
        k <= lcs_len(xs, ys, i, j),
    decreases i + j,
{
    if k == 0 || i == 0 || j == 0 {
    } else if xs[i - 1] == ys[j - 1] {
        if embeds(c, k, xs, (i - 1) as nat) {
            lemma_embeds_shorter(c, k, xs, (i - 1) as nat);
        }
        if embeds(c, k, ys, (j - 1) as nat) {
            lemma_embeds_shorter(c, k, ys, (j - 1) as nat);
        }
        lemma_common_bounded(c, (k - 1) as nat, xs, ys, (i - 1) as nat, (j - 1) as nat);
    } else if embeds(c, k, xs, (i - 1) as nat) {
        lemma_common_bounded(c, k, xs, ys, (i - 1) as nat, j);
    } else {
        lemma_common_bounded(c, k, xs, ys, i, (j - 1) as nat);
    }
}

/// The selected subsequence is a longest common subsequence: it is a
/// subsequence of both inputs, and no common subsequence is longer.
pub proof fn lemma_lcs_is_longest(xs: Seq<char>, ys: Seq<char>)
    ensures
        is_common_subsequence(lcs(xs, ys), xs, ys),
        lcs(xs, ys).len() == lcs_len(xs, ys, xs.len(), ys.len()),
        forall|c: Seq<char>| #[trigger]
            is_common_subsequence(c, xs, ys) ==> c.len() <= lcs(xs, ys).len(),
{
    lemma_lcs_of_is_common(xs, ys, xs.len(), ys.len());
    assert forall|c: Seq<char>| #[trigger]
        is_common_subsequence(c, xs, ys) implies c.len() <= lcs(xs, ys).len() by {
        lemma_common_bounded(c, c.len(), xs, ys, xs.len(), ys.len());
    }
}

/// Walks back through a table of lengths from its last cell and returns the
/// common subsequence collected on the way, in the order of the inputs.
pub fn construct(xs: &[char], ys: &[char], tab: &[VecDeque<usize>]) -> (found: String)
    requires
        covers(tab@, xs@.len(), ys@.len()),
    ensures
        found@ == trace_back(xs@, ys@, tab@, xs@.len(), ys@.len()),
{
    let mut result: Vec<char> = Vec::new();
    let mut i: usize = xs.len();
    let mut j: usize = ys.len();
    while i > 0 && j > 0
        invariant
            i <= xs@.len(),
            j <= ys@.len(),
            covers(tab@, xs@.len(), ys@.len()),
            trace_back(xs@, ys@, tab@, xs@.len(), ys@.len()) == trace_back(
                xs@,
                ys@,
                tab@,
                i as nat,
                j as nat,
            ) + result@.reverse(),
        decreases i + j,
    {
        if xs[i - 1] == ys[j - 1] {
            result.push(xs[i - 1]);
            i = i - 1;
            j = j - 1;
        } else if tab[i - 1][j] > tab[i][j - 1] {
            i = i - 1;
        } else {
            j = j - 1;
        }
    }
    string_of_reversed(&result)
}

/// Computes the longest common subsequence of two strings: fills the table of
/// lengths row by row, then walks back through it.
pub fn lcs_dyn(xs: &str, ys: &str) -> (found: String)
    ensures
        found@ == lcs(xs@, ys@),
        is_common_subsequence(found@, xs@, ys@),
        forall|c: Seq<char>| #[trigger]
            is_common_subsequence(c, xs@, ys@) ==> c.len() <= found@.len(),
{
    proof {
        lemma_lcs_is_longest(xs@, ys@);
    }
    let xs: Vec<char> = chars_of(xs);
    let ys: Vec<char> = chars_of(ys);
    let m: usize = xs.len();
    let n: usize = ys.len();

    let mut top: VecDeque<usize> = VecDeque::new();
    top.push_back(0);
    let mut j: usize = 0;
    while j < n
        invariant
            j <= n,
            top@.len() == j + 1,
            forall|c: int| 0 <= c <= j ==> top@[c] == 0,
        decreases n - j,
    {
        top.push_back(0);
        j = j + 1;
    }
    let mut tab: Vec<VecDeque<usize>> = Vec::new();
    tab.push(top);

    let mut i: usize = 0;
    while i < m
        invariant
            i <= m,
            m == xs@.len(),
            n == ys@.len(),
            tab@.len() == i + 1,
            forall|r: int| 0 <= r <= i ==> (#[trigger] tab@[r])@.len() == n + 1,
            holds_lengths(xs@, ys@, tab@, i as nat),
        decreases m - i,
    {
        let x: char = xs[i];
        let mut row: VecDeque<usize> = VecDeque::new();
        row.push_back(0);
        let mut j: usize = 0;
        while j < n
            invariant
                j <= n,
                i < m,
                m == xs@.len(),
                n == ys@.len(),
                x == xs@[i as int],
                tab@.len() == i + 1,
                forall|r: int| 0 <= r <= i ==> (#[trigger] tab@[r])@.len() == n + 1,
                holds_lengths(xs@, ys@, tab@, i as nat),
                row@.len() == j + 1,
                forall|c: int|
                    0 <= c <= j ==> (#[trigger] row@[c]) as nat == lcs_len(
                        xs@,
                        ys@,
                        (i + 1) as nat,
                        c as nat,
                    ),
            decreases n - j,
        {
            proof {
                lemma_lcs_len_bounded(xs@, ys@, i as nat, j as nat);
            }
            let val: usize = if x == ys[j] {
                1 + tab[i][j]
            } else {
                let up: usize = tab[i][j + 1];
                let left: usize = row[j];
                if up > left {
                    up
                } else {
                    left
                }
            };
            row.push_back(val);
            j = j + 1;
        }
        tab.push(row);
        i = i + 1;
    }
    proof {
        lemma_trace_back_on_lengths(xs@, ys@, tab@, m as nat, n as nat);
    }
    construct(xs.as_slice(), ys.as_slice(), tab.as_slice())
}

} // verus!
