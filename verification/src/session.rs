//! The caption-generation session: a state machine that owns one run of
//! the autoregressive loop.
//!
//! The caller performs the engine work (encoding, recurrent steps,
//! decoding); the session decides what to do next. It starts in
//! `Start`, demanding the priming action: encode the image and run the
//! recurrent cell in reset mode, with zero hidden and zero cell
//! vectors. Once primed it runs, each step feeding back the previous
//! raw token (initially the start sentinel `0`), and absorbs the raw
//! token the decoder produced, which determines the element the stream
//! yields and the next state. The stop sentinel, or an engine failure,
//! ends the session for good: it is single-pass and not restartable.

use vstd::prelude::*;

use crate::token::TokenOutcome;
use crate::token::outcome_of;
use crate::token::emitted_of;
use crate::token::classify_token;

verus! {

/// Where a session stands in its life cycle.
#[derive(Clone, Copy, Debug, PartialEq, Eq, Structural)]
pub enum SessionState {
    /// No engine work has happened: the next action is priming.
    Start,
    /// Primed and producing tokens; `prev` is the raw token to feed
    /// back on the next step (the start sentinel `0` right after
    /// priming).
    Running { prev: usize },
    /// The stop sentinel was produced: terminal.
    Stopped,
    /// An engine call failed: terminal.
    Failed,
}

/// The engine work the caller must perform next for a session.
#[derive(Clone, Copy, Debug, PartialEq, Eq, Structural)]
pub enum StepAction {
    /// Encode the image and run the recurrent cell in reset mode:
    /// zero hidden vector, zero cell vector, image feature as input.
    Prime,
    /// One ordinary step: one-hot encode `prev`, run the recurrent
    /// cell on the carried state, decode the new hidden vector.
    Feed { prev: usize },
    /// The session is terminal: no further engine work.
    Done,
}

/// The action a session in state `s` demands.
pub open spec fn action_of(s: SessionState) -> StepAction {
    match s {
        SessionState::Start => StepAction::Prime,
        SessionState::Running { prev } => StepAction::Feed { prev },
        SessionState::Stopped => StepAction::Done,
        SessionState::Failed => StepAction::Done,
    }
}

/// The state that absorbing raw token `t` moves a running session to.
pub open spec fn state_after(t: usize) -> SessionState {
    if outcome_of(t) is Stop {
        SessionState::Stopped
    } else {
        SessionState::Running { prev: t }
    }
}

/// One caption-generation run: the state of the machine and how many
/// raw tokens it has absorbed.
pub struct Session {
    /// Where the session stands.
    pub state: SessionState,
    /// How many raw tokens have been absorbed so far.
    pub steps: usize,
}

impl Session {
    /// A fresh session: nothing absorbed, priming still owed, so its
    /// first recurrent step uses zero hidden and zero cell vectors no
    /// matter what any earlier session did.
    pub fn new() -> (s: Session)
        ensures
            s.state == SessionState::Start,
            s.steps == 0,
    {
        Session { state: SessionState::Start, steps: 0 }
    }

    /// The engine work owed next.
    pub fn next_action(&self) -> (a: StepAction)
        ensures
            a == action_of(self.state),
    {
        match self.state {
            SessionState::Start => StepAction::Prime,
            SessionState::Running { prev } => StepAction::Feed { prev },
            SessionState::Stopped => StepAction::Done,
            SessionState::Failed => StepAction::Done,
        }
    }

    /// The priming action succeeded: the session starts running, with
    /// the start sentinel `0` as the first token to feed back.
    pub fn primed(&mut self)
        requires
            old(self).state == SessionState::Start,
        ensures
            final(self).state == (SessionState::Running { prev: 0 }),
            final(self).steps == old(self).steps,
    {
        self.state = SessionState::Running { prev: 0 };
    }

    /// Absorb the raw token `t` the decoder produced this step. The
    /// returned value is what the stream yields: `None` ends the
    /// stream with no element (the stop sentinel), `Some(None)` is an
    /// absent element, `Some(Some(w))` is vocabulary index `w`. The
    /// absorbed token, stop or not, becomes the one to feed back next.
    pub fn absorb(&mut self, t: usize) -> (e: Option<Option<usize>>)
        requires
            old(self).state is Running,
            old(self).steps < usize::MAX,
        ensures
            e == emitted_of(t),
            final(self).state == state_after(t),
            final(self).steps == old(self).steps + 1,
    {
        self.steps = self.steps + 1;
        match classify_token(t) {
            TokenOutcome::Stop => {
                self.state = SessionState::Stopped;
                None
            },
            TokenOutcome::Unknown => {
                self.state = SessionState::Running { prev: t };
                Some(None)
            },
            TokenOutcome::Word(w) => {
                self.state = SessionState::Running { prev: t };
                Some(Some(w))
            },
        }
    }

    /// An engine call failed: the session is over for good. The caller
    /// surfaces its error as the terminating element of the stream.
    pub fn failed(&mut self)
        requires
            old(self).state is Start || old(self).state is Running,
        ensures
            final(self).state == SessionState::Failed,
            final(self).steps == old(self).steps,
    {
        self.state = SessionState::Failed;
    }
}

/// Session reset: a session still in `Start` always demands the
/// priming action — zero hidden and zero cell vectors — whatever any
/// prior session ended with.
pub proof fn lemma_fresh_session_primes(s: Session)
    requires
        s.state == SessionState::Start,
    ensures
        action_of(s.state) == StepAction::Prime,
{
}

} // verus!
