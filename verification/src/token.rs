//! The raw-token protocol: how one raw decoder output is interpreted.
//!
//! The decoder emits a raw token index. Three low values are reserved
//! sentinels: `0` is the sequence-start / padding sentinel, `1` is the
//! sequence-stop sentinel, and `2` is the out-of-vocabulary sentinel.
//! Every value from `3` upward stands for the vocabulary word at offset
//! three less.

use vstd::prelude::*;

verus! {

/// How one raw decoder output is interpreted by the caption generator.
#[derive(Clone, Copy, Debug, PartialEq, Eq, Structural)]
pub enum TokenOutcome {
    /// The stop sentinel was produced: the stream ends with no element.
    Stop,
    /// A non-word sentinel (start/padding or out-of-vocabulary) was
    /// produced: an absent element is emitted.
    Unknown,
    /// A vocabulary word was produced: its vocabulary index is emitted.
    Word(usize),
}

/// Interpretation of a raw token: `1` stops, `0` and `2` are absent,
/// anything else names the vocabulary word at offset `t - 3`.
pub open spec fn outcome_of(t: usize) -> TokenOutcome {
    if t == 1 {
        TokenOutcome::Stop
    } else if t == 0 || t == 2 {
        TokenOutcome::Unknown
    } else {
        TokenOutcome::Word((t - 3) as usize)
    }
}

/// The element the caption stream yields for raw token `t`:
/// `None` means the stream ends this step with no element.
pub open spec fn emitted_of(t: usize) -> Option<Option<usize>> {
    match outcome_of(t) {
        TokenOutcome::Stop => None,
        TokenOutcome::Unknown => Some(None),
        TokenOutcome::Word(w) => Some(Some(w)),
    }
}

/// Classify one raw decoder output according to the sentinel protocol.
pub fn classify_token(t: usize) -> (r: TokenOutcome)
    ensures
        r == outcome_of(t),
{
    if t == 1 {
        TokenOutcome::Stop
    } else if t == 0 || t == 2 {
        TokenOutcome::Unknown
    } else {
        TokenOutcome::Word(t - 3)
    }
}

/// The stopping protocol, for every raw decoder output `t` below the
/// score-buffer length `n`: the stop sentinel `1` ends the stream with
/// no element this step; the sentinels `0` and `2` emit an absent
/// element; every other value emits the vocabulary index `t - 3`,
/// which stays below `n - 3` — with a score buffer of `vocab_size + 3`
/// entries, every emitted word index falls inside the vocabulary.
pub proof fn lemma_token_protocol(t: usize, n: usize)
    requires
        t < n,
    ensures
        t == 1 ==> emitted_of(t) is None,
        t == 0 || t == 2 ==> emitted_of(t) == Some(Option::<usize>::None),
        t >= 3 ==> emitted_of(t) == Some(Some((t - 3) as usize)) && t - 3 < n - 3,
{
}

} // verus!
