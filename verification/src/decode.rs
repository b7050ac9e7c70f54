//! Greedy decoding: picking the raw token with the highest score.
//!
//! The decoder subgraph produces one score per raw token. A score is
//! carried here as an order key: `Some(k)` for an ordinary score, where
//! `k` preserves the scores' order, and `None` for a score that is not
//! a number. The chosen index is found by a single left-to-right scan:
//! a candidate displaces the current best when it is strictly greater,
//! or when it is an ordinary score and the best so far is not a number.
//! So ties between ordinary scores are broken toward the
//! first-occurring index, and a not-a-number score is never chosen over
//! an ordinary one.

use vstd::prelude::*;

verus! {

/// Whether score `a` is strictly greater than score `b`: only ordinary
/// scores compare, and between them by their keys.
pub open spec fn score_gt(a: Option<u64>, b: Option<u64>) -> bool {
    match (a, b) {
        (Some(x), Some(y)) => x > y,
        _ => false,
    }
}

/// Whether a candidate score `a` displaces the current best `b` in the
/// scan: a strictly greater ordinary score does, and an ordinary score
/// always displaces a not-a-number best.
pub open spec fn displaces(a: Option<u64>, b: Option<u64>) -> bool {
    match (a, b) {
        (Some(x), Some(y)) => x > y,
        (Some(_), None) => true,
        _ => false,
    }
}

/// The index the scan holds after starting with candidate `best` and
/// examining positions `i` up to the end of `s`.
pub open spec fn argmax_from(s: Seq<Option<u64>>, best: int, i: int) -> int
    decreases s.len() - i,
{
    if i < 0 || i >= s.len() {
        best
    } else if displaces(s[i], s[best]) {
        argmax_from(s, i, i + 1)
    } else {
        argmax_from(s, best, i + 1)
    }
}

/// The index of the greedy choice: the first-occurring maximum of `s`.
pub open spec fn argmax_spec(s: Seq<Option<u64>>) -> int {
    argmax_from(s, 0, 1)
}

fn displaces_exec(a: &Option<u64>, b: &Option<u64>) -> (r: bool)
    ensures
        r == displaces(*a, *b),
{
    match (*a, *b) {
        (Some(x), Some(y)) => x > y,
        (Some(_), None) => true,
        _ => false,
    }
}

/// Scan the score buffer and return the index of its maximum: ties
/// between ordinary scores are broken toward the first-occurring
/// index, and a not-a-number score never beats an ordinary one.
pub fn argmax(scores: &Vec<Option<u64>>) -> (r: usize)
    requires
        scores@.len() > 0,
    ensures
        r == argmax_spec(scores@),
        r < scores@.len(),
{
    let mut best: usize = 0;
    let mut i: usize = 1;
    while i < scores.len()
        invariant
            0 < i <= scores@.len(),
            best < i,
            argmax_spec(scores@) == argmax_from(scores@, best as int, i as int),
        decreases scores@.len() - i,
    {
        if displaces_exec(&scores[i], &scores[best]) {
            best = i;
        }
        i = i + 1;
    }
    best
}

/// The greedy choice depends on the scores alone: equal score buffers
/// always yield the same chosen index.
pub proof fn lemma_argmax_deterministic(s1: Seq<Option<u64>>, s2: Seq<Option<u64>>)
    requires
        s1 == s2,
    ensures
        argmax_spec(s1) == argmax_spec(s2),
{
}

proof fn lemma_argmax_from_first_max(s: Seq<Option<u64>>, best: int, i: int)
    requires
        forall|j: int| 0 <= j < s.len() ==> s[j] is Some,
        0 <= best < i <= s.len(),
        forall|j: int| 0 <= j < i ==> !score_gt(s[j], s[best]),
        forall|j: int| 0 <= j < best ==> score_gt(s[best], s[j]),
    ensures
        ({
            let m = argmax_from(s, best, i);
            &&& 0 <= m < s.len()
            &&& forall|j: int| 0 <= j < s.len() ==> !score_gt(s[j], s[m])
            &&& forall|j: int| 0 <= j < m ==> score_gt(s[m], s[j])
        }),
    decreases s.len() - i,
{
    if i < s.len() {
        if displaces(s[i], s[best]) {
            assert forall|j: int| 0 <= j < i implies score_gt(s[i], s[j]) by {
                assert(!score_gt(s[j], s[best]));
            }
            lemma_argmax_from_first_max(s, i, i + 1);
        } else {
            lemma_argmax_from_first_max(s, best, i + 1);
        }
    }
}

/// When every score is an ordinary value, the greedy choice is the
/// first-occurring maximum: no score beats it, and it strictly beats
/// every score before it.
pub proof fn lemma_argmax_first_max(s: Seq<Option<u64>>)
    requires
        s.len() > 0,
        forall|j: int| 0 <= j < s.len() ==> s[j] is Some,
    ensures
        ({
            let m = argmax_spec(s);
            &&& 0 <= m < s.len()
            &&& forall|j: int| 0 <= j < s.len() ==> !score_gt(s[j], s[m])
            &&& forall|j: int| 0 <= j < m ==> score_gt(s[m], s[j])
        }),
{
    lemma_argmax_from_first_max(s, 0, 1);
}

proof fn lemma_argmax_from_ordinary(s: Seq<Option<u64>>, best: int, i: int)
    requires
        0 <= best < i <= s.len(),
        s[best] is Some || exists|j: int| i <= j < s.len() && s[j] is Some,
    ensures
        s[argmax_from(s, best, i)] is Some,
    decreases s.len() - i,
{
    if i >= s.len() {
    } else if displaces(s[i], s[best]) {
        lemma_argmax_from_ordinary(s, i, i + 1);
    } else {
        if s[best] !is Some {
            let j = choose|j: int| i <= j < s.len() && s[j] is Some;
            assert(j != i);
        }
        lemma_argmax_from_ordinary(s, best, i + 1);
    }
}

/// A not-a-number score is never chosen while any ordinary score is
/// present, wherever in the buffer either stands.
pub proof fn lemma_ordinary_score_wins(s: Seq<Option<u64>>)
    requires
        s.len() > 0,
        exists|j: int| 0 <= j < s.len() && s[j] is Some,
    ensures
        s[argmax_spec(s)] is Some,
{
    let j = choose|j: int| 0 <= j < s.len() && s[j] is Some;
    if j == 0 {
        lemma_argmax_from_ordinary(s, 0, 1);
    } else {
        assert(1 <= j < s.len() && s[j] is Some);
        lemma_argmax_from_ordinary(s, 0, 1);
    }
}

} // verus!
