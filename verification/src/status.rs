use vstd::prelude::*;

verus! {

/// The review state of a record. `Pending` is the initial state; `Discarted`
/// and `Liked` are terminal.
#[derive(Clone, Copy, Debug, PartialEq, Eq, Structural)]
pub enum StatusTweet {
    Pending,
    Discarted,
    Liked,
}

impl StatusTweet {
    /// The single transition rule of the state machine: only `Pending` may
    /// move; a terminal state never changes again.
    pub open spec fn spec_transition(self, target: StatusTweet) -> StatusTweet {
        if self is Pending {
            target
        } else {
            self
        }
    }

    /// Moves this status towards `target`, refusing any move out of a
    /// terminal state.
    pub fn transition(self, target: StatusTweet) -> (r: StatusTweet)
        ensures
            r == self.spec_transition(target),
    {
        match self {
            StatusTweet::Pending => target,
            _ => self,
        }
    }
}

/// Status monotonicity: once a status is `Discarted` or `Liked`, no
/// transition changes it again, and a `Pending` status moves exactly to the
/// requested target.
pub proof fn lemma_status_monotone(s: StatusTweet, target: StatusTweet)
    ensures
        s !is Pending ==> s.spec_transition(target) == s,
        s is Pending ==> s.spec_transition(target) == target,
{
}

} // verus!
