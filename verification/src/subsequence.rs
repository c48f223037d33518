//! The subsequence relation on sequences of characters.

use vstd::prelude::*;

verus! {

/// The first `k` characters of `s` occur, in order but not necessarily side
/// by side, among the first `i` characters of `t`.
pub open spec fn embeds(s: Seq<char>, k: nat, t: Seq<char>, i: nat) -> bool
    recommends
        k <= s.len(),
        i <= t.len(),
    decreases i,
{
    if k == 0 {
        true
    } else if i == 0 {
        false
    } else {
        ||| s[k - 1] == t[i - 1] && embeds(s, (k - 1) as nat, t, (i - 1) as nat)
        ||| embeds(s, k, t, (i - 1) as nat)
    }
}

/// `s` can be obtained from `t` by deleting characters.
pub open spec fn is_subsequence(s: Seq<char>, t: Seq<char>) -> bool {
    embeds(s, s.len(), t, t.len())
}

/// `s` is a subsequence of both `xs` and `ys`.
pub open spec fn is_common_subsequence(s: Seq<char>, xs: Seq<char>, ys: Seq<char>) -> bool {
    is_subsequence(s, xs) && is_subsequence(s, ys)
}

/// Whether a prefix embeds depends on the characters of that prefix alone.
pub proof fn lemma_embeds_by_prefix(s1: Seq<char>, s2: Seq<char>, k: nat, t: Seq<char>, i: nat)
    requires
        forall|p: int| 0 <= p < k ==> s1[p] == s2[p],
    ensures
        embeds(s1, k, t, i) == embeds(s2, k, t, i),
    decreases i,
{
    if k != 0 && i != 0 {
        lemma_embeds_by_prefix(s1, s2, (k - 1) as nat, t, (i - 1) as nat);
        lemma_embeds_by_prefix(s1, s2, k, t, (i - 1) as nat);
    }
}

/// If a prefix embeds, so does the prefix one character shorter.
pub proof fn lemma_embeds_shorter(s: Seq<char>, k: nat, t: Seq<char>, i: nat)
    requires
        k > 0,
        embeds(s, k, t, i),
    ensures
        embeds(s, (k - 1) as nat, t, i),
    decreases i,
{
    if i != 0 {
        if embeds(s, k, t, (i - 1) as nat) {
            lemma_embeds_shorter(s, k, t, (i - 1) as nat);
        } else if k - 1 > 0 {
            lemma_embeds_shorter(s, (k - 1) as nat, t, (i - 1) as nat);
        }
    }
}

/// `places` tells where in the first `i` characters of `t` the first `k`
/// characters of `s` are found: one place for each, the places rising.
pub open spec fn finds(places: Seq<int>, s: Seq<char>, k: nat, t: Seq<char>, i: nat) -> bool {
    &&& places.len() == k
    &&& forall|p: int| 0 <= p < k ==> 0 <= #[trigger] places[p] < i && s[p] == t[places[p]]
    &&& forall|p: int, q: int| 0 <= p < q < k ==> #[trigger] places[p] < #[trigger] places[q]
}

/// A prefix that embeds has places where its characters are found.
pub proof fn lemma_embeds_gives_places(s: Seq<char>, k: nat, t: Seq<char>, i: nat) -> (places:
    Seq<int>)
    requires
        embeds(s, k, t, i),
    ensures
        finds(places, s, k, t, i),
    decreases i,
{
    if k == 0 {
        Seq::empty()
    } else if s[k - 1] == t[i - 1] && embeds(s, (k - 1) as nat, t, (i - 1) as nat) {
        let before = lemma_embeds_gives_places(s, (k - 1) as nat, t, (i - 1) as nat);
        before.push(i - 1)
    } else {
        lemma_embeds_gives_places(s, k, t, (i - 1) as nat)
    }
}

/// A prefix whose characters are found at rising places embeds.
pub proof fn lemma_places_give_embeds(places: Seq<int>, s: Seq<char>, k: nat, t: Seq<char>, i: nat)
    requires
        finds(places, s, k, t, i),
    ensures
        embeds(s, k, t, i),
    decreases i,
{
    if k != 0 {
        let last = places[k - 1];
        if last == i - 1 {
            let before = places.drop_last();
            assert forall|p: int| 0 <= p < k - 1 implies 0 <= #[trigger] before[p] < i - 1 && s[p]
                == t[before[p]] by {
                assert(places[p] < places[k - 1]);
            }
            lemma_places_give_embeds(before, s, (k - 1) as nat, t, (i - 1) as nat);
        } else {
            assert forall|p: int| 0 <= p < k implies 0 <= #[trigger] places[p] < i - 1 && s[p]
                == t[places[p]] by {
                if p < k - 1 {
                    assert(places[p] < places[k - 1]);
                }
            }
            lemma_places_give_embeds(places, s, k, t, (i - 1) as nat);
        }
    }
}

/// `s` is a subsequence of `t` exactly if the characters of `s` are found in
/// `t` at rising places.
pub proof fn lemma_subsequence_by_places(s: Seq<char>, t: Seq<char>)
    ensures
        is_subsequence(s, t) <==> exists|places: Seq<int>| finds(places, s, s.len(), t, t.len()),
{
    if is_subsequence(s, t) {
        let places = lemma_embeds_gives_places(s, s.len(), t, t.len());
    }
    if exists|places: Seq<int>| finds(places, s, s.len(), t, t.len()) {
        let places = choose|places: Seq<int>| finds(places, s, s.len(), t, t.len());
        lemma_places_give_embeds(places, s, s.len(), t, t.len());
    }
}

} // verus!
