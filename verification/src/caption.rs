//! Whole captions from a run of raw decoder outputs.
//!
//! A caption is the finite sequence of elements a session emits:
//! `None` where a non-word sentinel was produced, `Some(w)` where the
//! vocabulary word `w` was produced. Generation ends at the first stop
//! sentinel, which is not part of the caption, or — under a step-cap
//! policy — after a fixed number of steps, which counts as an ordinary
//! stop, not an error.

use vstd::prelude::*;

use crate::token::TokenOutcome;
use crate::token::outcome_of;
use crate::session::Session;

verus! {

/// The caption a session produces when the decoder returns the raw
/// tokens `toks` on its successive calls: interpreted in order, up to
/// the first stop sentinel.
pub open spec fn caption_spec(toks: Seq<usize>) -> Seq<Option<usize>>
    decreases toks.len(),
{
    if toks.len() == 0 {
        Seq::empty()
    } else {
        match outcome_of(toks[0]) {
            TokenOutcome::Stop => Seq::empty(),
            TokenOutcome::Unknown => seq![None].add(caption_spec(toks.drop_first())),
            TokenOutcome::Word(w) => seq![Some(w)].add(caption_spec(toks.drop_first())),
        }
    }
}

/// The caption under a step-cap policy: as `caption_spec`, but
/// generation also ends once `cap` steps have been taken.
pub open spec fn capped_caption_spec(toks: Seq<usize>, cap: nat) -> Seq<Option<usize>>
    decreases toks.len(),
{
    if toks.len() == 0 || cap == 0 {
        Seq::empty()
    } else {
        match outcome_of(toks[0]) {
            TokenOutcome::Stop => Seq::empty(),
            TokenOutcome::Unknown => seq![None].add(
                capped_caption_spec(toks.drop_first(), (cap - 1) as nat),
            ),
            TokenOutcome::Word(w) => seq![Some(w)].add(
                capped_caption_spec(toks.drop_first(), (cap - 1) as nat),
            ),
        }
    }
}

/// Drive one whole session over the raw tokens `toks`, as if the
/// decoder returned them on its successive calls, and collect the
/// caption: every element emitted before the first stop sentinel.
pub fn caption_of_tokens(toks: &Vec<usize>) -> (r: Vec<Option<usize>>)
    ensures
        r@ == caption_spec(toks@),
{
    let mut out: Vec<Option<usize>> = Vec::new();
    let mut s = Session::new();
    s.primed();
    let mut i: usize = 0;
    proof {
        assert(toks@.skip(0) =~= toks@);
    }
    while i < toks.len()
        invariant
            i <= toks@.len(),
            s.state is Running,
            s.steps == i,
            caption_spec(toks@) =~= out@ + caption_spec(toks@.skip(i as int)),
        decreases toks@.len() - i,
    {
        let e = s.absorb(toks[i]);
        proof {
            assert(toks@.skip(i as int)[0] == toks@[i as int]);
            assert(toks@.skip(i as int).drop_first() =~= toks@.skip(i as int + 1));
        }
        i = i + 1;
        match e {
            None => {
                proof {
                    assert(caption_spec(toks@) =~= out@);
                }
                return out;
            },
            Some(v) => {
                out.push(v);
            },
        }
    }
    proof {
        assert(toks@.skip(toks@.len() as int) =~= Seq::<usize>::empty());
        assert(caption_spec(toks@) =~= out@);
    }
    out
}

/// As `caption_of_tokens`, but under a step-cap policy: at most `cap`
/// raw tokens are absorbed, and reaching the cap ends generation like
/// an ordinary stop.
pub fn caption_capped(toks: &Vec<usize>, cap: usize) -> (r: Vec<Option<usize>>)
    ensures
        r@ == capped_caption_spec(toks@, cap as nat),
{
    let mut out: Vec<Option<usize>> = Vec::new();
    let mut s = Session::new();
    s.primed();
    let mut i: usize = 0;
    proof {
        assert(toks@.skip(0) =~= toks@);
    }
    while i < toks.len() && i < cap
        invariant
            i <= toks@.len(),
            i <= cap,
            s.state is Running,
            s.steps == i,
            capped_caption_spec(toks@, cap as nat) =~= out@ + capped_caption_spec(
                toks@.skip(i as int),
                (cap - i) as nat,
            ),
        decreases toks@.len() - i,
    {
        let e = s.absorb(toks[i]);
        proof {
            assert(toks@.skip(i as int)[0] == toks@[i as int]);
            assert(toks@.skip(i as int).drop_first() =~= toks@.skip(i as int + 1));
        }
        i = i + 1;
        match e {
            None => {
                proof {
                    assert(capped_caption_spec(toks@, cap as nat) =~= out@);
                }
                return out;
            },
            Some(v) => {
                out.push(v);
            },
        }
    }
    proof {
        if i >= toks@.len() {
            assert(toks@.skip(toks@.len() as int) =~= Seq::<usize>::empty());
        }
        assert(capped_caption_spec(toks@, cap as nat) =~= out@);
    }
    out
}

/// Independent runs agree: the caption is a function of the raw tokens
/// the decoder produced and of nothing else, so two sessions driven by
/// equal token runs — two loads of one model, say — produce equal
/// captions.
pub proof fn lemma_runs_agree(t1: Seq<usize>, t2: Seq<usize>)
    requires
        t1 == t2,
    ensures
        caption_spec(t1) == caption_spec(t2),
{
}

/// A step cap truncates and nothing more: the capped caption is
/// exactly the first `cap` elements of the uncapped one — the whole of
/// it when generation stops within the cap — so reaching the cap acts
/// as an ordinary stop, never as an error or an altered caption.
pub proof fn lemma_cap_truncates(toks: Seq<usize>, cap: nat)
    ensures
        capped_caption_spec(toks, cap) =~= caption_spec(toks).take(
            if cap <= caption_spec(toks).len() {
                cap as int
            } else {
                caption_spec(toks).len() as int
            },
        ),
    decreases toks.len(),
{
    if toks.len() == 0 || cap == 0 {
    } else if !(outcome_of(toks[0]) is Stop) {
        lemma_cap_truncates(toks.drop_first(), (cap - 1) as nat);
    }
}

/// A capped run over tokens that never include the stop sentinel emits
/// one element per step until the cap: exactly `cap` elements.
pub proof fn lemma_cap_reached(toks: Seq<usize>, cap: nat)
    requires
        cap <= toks.len(),
        forall|j: int| 0 <= j < toks.len() ==> toks[j] != 1,
    ensures
        capped_caption_spec(toks, cap).len() == cap,
    decreases cap,
{
    if cap > 0 {
        assert(toks[0] != 1);
        assert(!(outcome_of(toks[0]) is Stop));
        assert(forall|j: int|
            0 <= j < toks.drop_first().len() ==> toks.drop_first()[j] == toks[j + 1]);
        lemma_cap_reached(toks.drop_first(), (cap - 1) as nat);
    }
}

} // verus!
