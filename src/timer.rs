//! The countdowns that pace the protocol when no quorum comes.
use vstd::prelude::*;
use crate::engine::{Step, Timeout};

verus! {

/// How long each step may wait, growing with the round number so that later
/// rounds of a contended height get more time.
#[derive(Clone, Copy, Debug, PartialEq, Eq, Structural)]
pub struct TimeoutPolicy {
    /// Base wait of Propose, in milliseconds.
    pub propose: u64,
    /// Base wait of Prevote, in milliseconds.
    pub prevote: u64,
    /// Base wait of Precommit, in milliseconds.
    pub precommit: u64,
    /// Milliseconds added to every wait per round.
    pub increment: u64,
}

impl TimeoutPolicy {
    /// The base wait of `step`; Commit does not wait.
    pub open spec fn base(self, step: Step) -> int {
        match step {
            Step::Propose => self.propose as int,
            Step::Prevote => self.prevote as int,
            Step::Precommit => self.precommit as int,
            Step::Commit => 0,
        }
    }

    /// The wait of `step` in `round`: base plus one increment per round,
    /// capped at the largest `u64`.
    pub open spec fn wait(self, step: Step, round: u64) -> int {
        let w = self.base(step) + self.increment as int * round as int;
        if w > u64::MAX {
            u64::MAX as int
        } else {
            w
        }
    }

    /// The wait of `step` in `round`, in milliseconds.
    pub fn duration_for(&self, step: Step, round: u64) -> (r: u64)
        ensures
            r as int == self.wait(step, round),
    {
        let base: u64 = match step {
            Step::Propose => self.propose,
            Step::Prevote => self.prevote,
            Step::Precommit => self.precommit,
            Step::Commit => 0,
        };
        match self.increment.checked_mul(round) {
            Some(extra) => match base.checked_add(extra) {
                Some(w) => w,
                None => u64::MAX,
            },
            None => {
                assert(self.increment as int * round as int > u64::MAX);
                assert(base as int + self.increment as int * round as int > u64::MAX);
                u64::MAX
            },
        }
    }
}

/// The one live countdown: arming a new one replaces the old.
#[derive(Clone, Copy, Debug, PartialEq, Eq, Structural)]
pub struct Timer {
    pub armed: Option<Timeout>,
}

impl Timer {
    /// A timer with nothing armed.
    pub fn new() -> (r: Timer)
        ensures
            r.armed is None,
    {
        Timer { armed: None }
    }

    /// Arms the countdown for `t`, replacing any armed one.
    pub fn arm(&mut self, t: Timeout)
        ensures
            final(self).armed == Some(t),
    {
        self.armed = Some(t);
    }

    /// Cancels the armed countdown.
    pub fn cancel(&mut self)
        ensures
            final(self).armed is None,
    {
        self.armed = None;
    }

    /// The countdown ran out: hands back the state it was armed for, if any,
    /// and disarms.
    pub fn expire(&mut self) -> (r: Option<Timeout>)
        ensures
            r == old(self).armed,
            final(self).armed is None,
    {
        let r = self.armed;
        self.armed = None;
        r
    }
}

} // verus!
