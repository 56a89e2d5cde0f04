//! The consensus state machine.
//!
//! The engine is always at one (height, round, step). It takes three kinds
//! of events (a proposal, a vote, a timeout), each through one handler, and
//! each handler moves the engine exactly as the spec functions `on_proposal`,
//! `on_vote` and `on_timeout` say, returning what the caller has to do next.
use vstd::prelude::*;
use crate::tally::{Slot, count_of, empty_tally, count_votes, new_tally, same_value, lemma_count_empty};

verus! {

/// The phase of a round.
#[derive(Clone, Copy, Debug, PartialEq, Eq, Structural)]
pub enum Step {
    Propose,
    Prevote,
    Precommit,
    Commit,
}

/// A block this engine has precommitted to, with the round it did so in.
#[derive(Clone, Copy, Debug, PartialEq, Eq, Structural)]
pub struct Lock {
    pub block: u64,
    pub round: u64,
}

/// How the proposer of a round is picked from the validator set.
#[derive(Clone, Copy, Debug, PartialEq, Eq, Structural)]
pub enum Rotation {
    /// Round robin keyed by `height + round`.
    HeightAndRound,
    /// Round robin keyed by the round alone: every height starts with the
    /// first validator.
    Round,
}

/// A candidate block for one height and round, as signed by its proposer.
#[derive(Clone, Copy, Debug, PartialEq, Eq)]
pub struct Proposal {
    pub height: u64,
    pub round: u64,
    /// Index of the signer in the validator set.
    pub proposer: usize,
    pub block: u64,
    /// The round in which a re-proposed block gathered a quorum of
    /// prevotes, if it is one.
    pub valid_round: Option<u64>,
}

/// A prevote or precommit of one validator; `block` is `None` for nil.
#[derive(Clone, Copy, Debug, PartialEq, Eq)]
pub struct Vote {
    pub height: u64,
    pub round: u64,
    pub step: Step,
    /// Index of the signer in the validator set.
    pub voter: usize,
    pub block: Option<u64>,
}

/// The expiry of the countdown armed for one (height, round, step).
#[derive(Clone, Copy, Debug, PartialEq, Eq, Structural)]
pub struct Timeout {
    pub height: u64,
    pub round: u64,
    pub step: Step,
}

/// The verdict of the transaction verifier on the block of a proposal.
#[derive(Clone, Copy, Debug, PartialEq, Eq, Structural)]
pub struct Verdict {
    pub height: u64,
    pub round: u64,
    pub block: u64,
    /// Whether every transaction the block references is valid.
    pub ok: bool,
}

/// The chain's report of the highest block it has stored.
#[derive(Clone, Copy, Debug, PartialEq, Eq, Structural)]
pub struct Status {
    pub height: u64,
    pub block: u64,
}

/// One item of the engine's inbox.
#[derive(Clone, Copy, Debug, PartialEq, Eq)]
pub enum Event {
    Proposal(Proposal),
    Vote(Vote),
    Timeout(Timeout),
    Verified(Verdict),
    Status(Status),
}

/// What handling one event led to.
#[derive(Clone, Copy, Debug, PartialEq, Eq)]
pub enum Outcome {
    /// Stale, for another height or round, from an unknown signer, or a
    /// timeout or verdict for a state the engine has left: dropped.
    Ignored,
    /// The same message was already taken.
    Duplicate,
    /// A second, differing message for a slot that was already filled.
    Equivocation,
    /// Counted, with no change of step.
    Recorded,
    /// The proposal of the round is pending; have this block verified.
    Verify(u64),
    /// The verifier refused the pending proposal; it is dropped.
    Rejected,
    /// The engine entered Prevote; broadcast this prevote.
    Prevote(Option<u64>),
    /// The engine entered Precommit; broadcast this precommit.
    Precommit(Option<u64>),
    /// The round failed; the engine entered Propose of this round.
    NewRound(u64),
    /// This block is decided; the engine entered the next height.
    Commit(u64),
    /// The chain is ahead; the engine entered round 0 of this height.
    Synced(u64),
}

/// The smallest number of equal-weight validators, out of `n`, that is more
/// than two thirds of them.
pub open spec fn quorum(n: int) -> int {
    2 * n / 3 + 1
}

/// The validator that proposes at `height` and `round`.
pub open spec fn proposer_of(height: u64, round: u64, n: usize, rotation: Rotation) -> int {
    match rotation {
        Rotation::HeightAndRound => (height as int + round as int) % (n as int),
        Rotation::Round => (round as int) % (n as int),
    }
}

/// Whether the engine in `s` may prevote for `block`, proposed with
/// `valid_round`: when it holds no lock, when its lock is on that block, or
/// when the block is re-proposed with a valid round later than the lock's,
/// in which the engine itself saw a quorum prevote that block.
pub open spec fn may_prevote(s: EngineState, block: u64, valid_round: Option<u64>) -> bool {
    match s.lock {
        None => true,
        Some(l) => l.block == block || match valid_round {
            Some(vr) => l.round < vr && vr < s.round && s.polka == Some(
                Lock { block, round: vr },
            ),
            None => false,
        },
    }
}

/// The abstract state of an engine.
pub struct EngineState {
    /// Size of the validator set.
    pub validators: usize,
    /// This node's index in the validator set.
    pub me: usize,
    pub rotation: Rotation,
    pub height: u64,
    pub round: u64,
    pub step: Step,
    pub lock: Option<Lock>,
    /// The latest block, with its round, that a quorum prevoted at this
    /// height as far as this engine saw.
    pub polka: Option<Lock>,
    /// The block of the proposal of the current round, pending verification
    /// while the step is Propose.
    pub proposal: Option<u64>,
    /// The valid round that proposal came with.
    pub proposal_valid_round: Option<u64>,
    /// Whether the proposer of the current round equivocated.
    pub proposal_conflict: bool,
    /// Prevotes of the current round, one slot per validator.
    pub prevotes: Seq<Slot>,
    /// Precommits of the current round, one slot per validator.
    pub precommits: Seq<Slot>,
    /// The block committed at the previous height, once there is one.
    pub last_commit: Option<u64>,
}

impl EngineState {
    pub open spec fn wf(self) -> bool {
        &&& 0 < self.validators
        &&& self.me < self.validators
        &&& self.prevotes.len() == self.validators
        &&& self.precommits.len() == self.validators
        &&& self.step != Step::Commit
        &&& self.lock matches Some(l) ==> l.round <= self.round
        &&& self.proposal_conflict ==> self.proposal is None
    }

    /// The state at round 0 of `height`, with nothing locked or counted.
    pub open spec fn at_height(self, height: u64, last_commit: Option<u64>) -> EngineState {
        EngineState {
            height,
            round: 0,
            step: Step::Propose,
            lock: None,
            polka: None,
            proposal: None,
            proposal_valid_round: None,
            proposal_conflict: false,
            prevotes: empty_tally(self.validators as nat),
            precommits: empty_tally(self.validators as nat),
            last_commit,
            ..self
        }
    }

    /// The state at Propose of `round`, same height, with the lock kept.
    pub open spec fn at_round(self, round: u64) -> EngineState {
        EngineState {
            round,
            step: Step::Propose,
            proposal: None,
            proposal_valid_round: None,
            proposal_conflict: false,
            prevotes: empty_tally(self.validators as nat),
            precommits: empty_tally(self.validators as nat),
            ..self
        }
    }
}

/// The engine of `n` validators, this node being `me`, starting at `height`.
pub open spec fn initial(n: usize, me: usize, rotation: Rotation, height: u64) -> EngineState {
    EngineState {
        validators: n,
        me,
        rotation,
        height,
        round: 0,
        step: Step::Propose,
        lock: None,
        polka: None,
        proposal: None,
        proposal_valid_round: None,
        proposal_conflict: false,
        prevotes: empty_tally(n as nat),
        precommits: empty_tally(n as nat),
        last_commit: None,
    }
}

/// Handling of a proposal.
///
/// The first proposal of the round from its designated proposer becomes the
/// pending proposal while the engine is at Propose, and its block is sent
/// for verification. A second, differing proposal of that proposer drops the
/// one taken, and none is taken for the rest of the round.
pub open spec fn on_proposal(s: EngineState, p: Proposal) -> (EngineState, Outcome) {
    if p.height != s.height || p.round != s.round || p.proposer != proposer_of(
        s.height,
        s.round,
        s.validators,
        s.rotation,
    ) {
        (s, Outcome::Ignored)
    } else if s.proposal_conflict {
        (s, Outcome::Equivocation)
    } else {
        match s.proposal {
            Some(b) => if b == p.block {
                (s, Outcome::Duplicate)
            } else {
                (
                    EngineState {
                        proposal: None,
                        proposal_valid_round: None,
                        proposal_conflict: true,
                        ..s
                    },
                    Outcome::Equivocation,
                )
            },
            None => if s.step == Step::Propose {
                (
                    EngineState {
                        proposal: Some(p.block),
                        proposal_valid_round: p.valid_round,
                        ..s
                    },
                    Outcome::Verify(p.block),
                )
            } else {
                (s, Outcome::Ignored)
            },
        }
    }
}

/// Handling of a verdict on the pending proposal: a valid block is accepted,
/// and the engine enters Prevote, prevoting it if `may_prevote` allows and
/// nil otherwise; a refused one is dropped and the round waits for its
/// Propose timeout.
pub open spec fn on_verified(s: EngineState, d: Verdict) -> (EngineState, Outcome) {
    if d.height != s.height || d.round != s.round || s.step != Step::Propose || s.proposal
        != Some(d.block) {
        (s, Outcome::Ignored)
    } else if !d.ok {
        (EngineState { proposal: None, proposal_valid_round: None, ..s }, Outcome::Rejected)
    } else {
        (
            EngineState { step: Step::Prevote, ..s },
            Outcome::Prevote(
                if may_prevote(s, d.block, s.proposal_valid_round) {
                    Some(d.block)
                } else {
                    None
                },
            ),
        )
    }
}

/// Handling of a prevote that fills an empty slot.
///
/// Once a quorum prevotes one block, the lock moves to that block and round;
/// a quorum of nil prevotes leaves the lock alone. Either quorum takes an
/// engine still at Propose or Prevote to Precommit, precommitting that value.
pub open spec fn count_prevote(s: EngineState, v: Vote) -> (EngineState, Outcome) {
    let pv = s.prevotes.update(v.voter as int, Some(v.block));
    let s1 = EngineState { prevotes: pv, ..s };
    if count_of(pv, v.block) >= quorum(s.validators as int) {
        let (lock, polka) = match v.block {
            Some(b) => (Some(Lock { block: b, round: s.round }), Some(Lock { block: b, round: s.round })),
            None => (s.lock, s.polka),
        };
        if s.step == Step::Propose || s.step == Step::Prevote {
            (EngineState { step: Step::Precommit, lock, polka, ..s1 }, Outcome::Precommit(v.block))
        } else {
            (EngineState { lock, polka, ..s1 }, Outcome::Recorded)
        }
    } else {
        (s1, Outcome::Recorded)
    }
}

/// Handling of a precommit that fills an empty slot: a quorum of precommits
/// for one block commits it and starts the next height, unlocked.
pub open spec fn count_precommit(s: EngineState, v: Vote) -> (EngineState, Outcome) {
    let pc = s.precommits.update(v.voter as int, Some(v.block));
    match v.block {
        Some(b) => if count_of(pc, v.block) >= quorum(s.validators as int) {
            (s.at_height((s.height + 1) as u64, Some(b)), Outcome::Commit(b))
        } else {
            (EngineState { precommits: pc, ..s }, Outcome::Recorded)
        },
        None => (EngineState { precommits: pc, ..s }, Outcome::Recorded),
    }
}

/// Handling of a vote: only votes of the current height and round from a
/// member of the set count, each validator's first vote per step only.
pub open spec fn on_vote(s: EngineState, v: Vote) -> (EngineState, Outcome) {
    if v.height != s.height || v.round != s.round || v.voter >= s.validators || !(v.step
        == Step::Prevote || v.step == Step::Precommit) {
        (s, Outcome::Ignored)
    } else {
        let slot = if v.step == Step::Prevote {
            s.prevotes[v.voter as int]
        } else {
            s.precommits[v.voter as int]
        };
        if slot == Some(v.block) {
            (s, Outcome::Duplicate)
        } else if slot is Some {
            (s, Outcome::Equivocation)
        } else if v.step == Step::Prevote {
            count_prevote(s, v)
        } else {
            count_precommit(s, v)
        }
    }
}

/// Handling of a timeout: one armed for another state is dropped. Propose
/// times out into a nil prevote, Prevote into a nil precommit, and Precommit
/// into the next round, where the lock is kept.
pub open spec fn on_timeout(s: EngineState, t: Timeout) -> (EngineState, Outcome) {
    if t.height != s.height || t.round != s.round || t.step != s.step {
        (s, Outcome::Ignored)
    } else {
        match s.step {
            Step::Propose => (EngineState { step: Step::Prevote, ..s }, Outcome::Prevote(None)),
            Step::Prevote => (EngineState { step: Step::Precommit, ..s }, Outcome::Precommit(None)),
            Step::Precommit => (
                s.at_round((s.round + 1) as u64),
                Outcome::NewRound((s.round + 1) as u64),
            ),
            Step::Commit => (s, Outcome::Ignored),
        }
    }
}

/// Handling of a chain status: when the chain has stored the block of the
/// current height or a later one, the engine leaves the height for the one
/// after the stored block, unlocked.
pub open spec fn on_status(s: EngineState, st: Status) -> (EngineState, Outcome) {
    if st.height < s.height {
        (s, Outcome::Ignored)
    } else {
        (s.at_height((st.height + 1) as u64, Some(st.block)), Outcome::Synced((st.height + 1) as u64))
    }
}

/// Handling of any event.
pub open spec fn next(s: EngineState, e: Event) -> (EngineState, Outcome) {
    match e {
        Event::Proposal(p) => on_proposal(s, p),
        Event::Vote(v) => on_vote(s, v),
        Event::Timeout(t) => on_timeout(s, t),
        Event::Verified(d) => on_verified(s, d),
        Event::Status(st) => on_status(s, st),
    }
}

/// Whether `s` can take `e` without a counter leaving its type: a precommit
/// may commit and a status moves the height, so they need a next height; a
/// Precommit timeout needs a next round.
pub open spec fn room_for(s: EngineState, e: Event) -> bool {
    match e {
        Event::Vote(v) => v.step != Step::Precommit || s.height < u64::MAX,
        Event::Timeout(t) => t.step != Step::Precommit || s.round < u64::MAX,
        Event::Status(st) => st.height < u64::MAX,
        Event::Proposal(_) => true,
        Event::Verified(_) => true,
    }
}

/// A consensus engine.
pub struct Engine {
    pub validators: usize,
    pub me: usize,
    pub rotation: Rotation,
    pub height: u64,
    pub round: u64,
    pub step: Step,
    pub lock: Option<Lock>,
    pub polka: Option<Lock>,
    pub proposal: Option<u64>,
    pub proposal_valid_round: Option<u64>,
    pub proposal_conflict: bool,
    pub prevotes: Vec<Slot>,
    pub precommits: Vec<Slot>,
    pub last_commit: Option<u64>,
}

/// The size of a quorum among `n` equal-weight validators.
pub fn quorum_size(n: usize) -> (r: usize)
    ensures
        r as int == quorum(n as int),
{
    let k = n / 3;
    let m = n % 3;
    assert(2 * (n as int) / 3 == 2 * k + (2 * m) / 3) by (nonlinear_arith)
        requires
            n as int == 3 * k + m,
            0 <= m < 3,
    ;
    2 * k + (2 * m) / 3 + 1
}

/// `(a + b) % n` for `a` and `b` below `n`, without overflow.
fn add_mod(a: u64, b: u64, n: u64) -> (r: u64)
    requires
        a < n,
        b < n,
    ensures
        r as int == (a as int + b as int) % (n as int),
{
    let ghost sum = a as int + b as int;
    if a >= n - b {
        proof {
            vstd::arithmetic::div_mod::lemma_small_mod((sum - n) as nat, n as nat);
            vstd::arithmetic::div_mod::lemma_mod_sub_multiples_vanish(sum, n as int);
        }
        a - (n - b)
    } else {
        proof {
            vstd::arithmetic::div_mod::lemma_small_mod(sum as nat, n as nat);
        }
        a + b
    }
}

/// The proposer of `round` at `height` among `n` validators.
pub fn proposer(height: u64, round: u64, n: usize, rotation: Rotation) -> (r: usize)
    requires
        n > 0,
    ensures
        r as int == proposer_of(height, round, n, rotation),
        r < n,
{
    let n64 = n as u64;
    let b = round % n64;
    match rotation {
        Rotation::Round => b as usize,
        Rotation::HeightAndRound => {
            let a = height % n64;
            proof {
                vstd::arithmetic::div_mod::lemma_add_mod_noop(height as int, round as int, n as int);
            }
            add_mod(a, b, n64) as usize
        },
    }
}

impl Engine {
    pub open spec fn view(&self) -> EngineState {
        EngineState {
            validators: self.validators,
            me: self.me,
            rotation: self.rotation,
            height: self.height,
            round: self.round,
            step: self.step,
            lock: self.lock,
            polka: self.polka,
            proposal: self.proposal,
            proposal_valid_round: self.proposal_valid_round,
            proposal_conflict: self.proposal_conflict,
            prevotes: self.prevotes@,
            precommits: self.precommits@,
            last_commit: self.last_commit,
        }
    }

    pub open spec fn wf(&self) -> bool {
        self@.wf()
    }

    /// An engine for `validators` validators, this node being `me`, that
    /// picks proposers by `rotation` and starts at round 0 of `height`.
    pub fn new(validators: usize, me: usize, rotation: Rotation, height: u64) -> (r: Engine)
        requires
            0 < validators,
            me < validators,
        ensures
            r@ == initial(validators, me, rotation, height),
            r.wf(),
    {
        Engine {
            validators,
            me,
            rotation,
            height,
            round: 0,
            step: Step::Propose,
            lock: None,
            polka: None,
            proposal: None,
            proposal_valid_round: None,
            proposal_conflict: false,
            prevotes: new_tally(validators),
            precommits: new_tally(validators),
            last_commit: None,
        }
    }

    fn enter_height(&mut self, height: u64, block: u64)
        requires
            old(self).wf(),
        ensures
            final(self)@ == old(self)@.at_height(height, Some(block)),
            final(self).wf(),
    {
        self.height = height;
        self.round = 0;
        self.step = Step::Propose;
        self.lock = None;
        self.polka = None;
        self.proposal = None;
        self.proposal_valid_round = None;
        self.proposal_conflict = false;
        self.prevotes = new_tally(self.validators);
        self.precommits = new_tally(self.validators);
        self.last_commit = Some(block);
    }

    /// Whether the engine may prevote for `block`, proposed with `valid_round`.
    fn prevote_allowed(&self, block: u64, valid_round: Option<u64>) -> (r: bool)
        ensures
            r == may_prevote(self@, block, valid_round),
    {
        match self.lock {
            None => true,
            Some(l) => {
                if l.block == block {
                    true
                } else {
                    match valid_round {
                        Some(vr) => l.round < vr && vr < self.round && match self.polka {
                            Some(p) => p.block == block && p.round == vr,
                            None => false,
                        },
                        None => false,
                    }
                }
            },
        }
    }

    /// Takes a proposal.
    pub fn handle_proposal(&mut self, p: &Proposal) -> (r: Outcome)
        requires
            old(self).wf(),
        ensures
            (final(self)@, r) == on_proposal(old(self)@, *p),
            final(self).wf(),
    {
        if p.height != self.height || p.round != self.round || p.proposer != proposer(
            self.height,
            self.round,
            self.validators,
            self.rotation,
        ) {
            return Outcome::Ignored;
        }
        if self.proposal_conflict {
            return Outcome::Equivocation;
        }
        match self.proposal {
            Some(b) => {
                if b == p.block {
                    Outcome::Duplicate
                } else {
                    self.proposal = None;
                    self.proposal_valid_round = None;
                    self.proposal_conflict = true;
                    Outcome::Equivocation
                }
            },
            None => {
                if self.step == Step::Propose {
                    self.proposal = Some(p.block);
                    self.proposal_valid_round = p.valid_round;
                    Outcome::Verify(p.block)
                } else {
                    Outcome::Ignored
                }
            },
        }
    }

    /// Takes the verifier's verdict on a proposal.
    pub fn handle_verified(&mut self, d: &Verdict) -> (r: Outcome)
        requires
            old(self).wf(),
        ensures
            (final(self)@, r) == on_verified(old(self)@, *d),
            final(self).wf(),
    {
        let pending = match self.proposal {
            Some(b) => b == d.block,
            None => false,
        };
        if d.height != self.height || d.round != self.round || self.step != Step::Propose
            || !pending {
            return Outcome::Ignored;
        }
        if !d.ok {
            self.proposal = None;
            self.proposal_valid_round = None;
            return Outcome::Rejected;
        }
        let allowed = self.prevote_allowed(d.block, self.proposal_valid_round);
        self.step = Step::Prevote;
        Outcome::Prevote(if allowed { Some(d.block) } else { None })
    }

    /// Takes a prevote or a precommit.
    pub fn handle_vote(&mut self, v: &Vote) -> (r: Outcome)
        requires
            old(self).wf(),
            v.step != Step::Precommit || old(self).height < u64::MAX,
        ensures
            (final(self)@, r) == on_vote(old(self)@, *v),
            final(self).wf(),
    {
        let prevote = v.step == Step::Prevote;
        if v.height != self.height || v.round != self.round || v.voter >= self.validators
            || !(prevote || v.step == Step::Precommit) {
            return Outcome::Ignored;
        }
        let slot = if prevote {
            self.prevotes[v.voter]
        } else {
            self.precommits[v.voter]
        };
        match slot {
            Some(x) => {
                if same_value(x, v.block) {
                    Outcome::Duplicate
                } else {
                    Outcome::Equivocation
                }
            },
            None => {
                let q = quorum_size(self.validators);
                if prevote {
                    self.prevotes.set(v.voter, Some(v.block));
                    let c = count_votes(&self.prevotes, v.block);
                    if c >= q {
                        if let Some(b) = v.block {
                            self.lock = Some(Lock { block: b, round: self.round });
                            self.polka = Some(Lock { block: b, round: self.round });
                        }
                        if self.step == Step::Propose || self.step == Step::Prevote {
                            self.step = Step::Precommit;
                            return Outcome::Precommit(v.block);
                        }
                    }
                    Outcome::Recorded
                } else {
                    self.precommits.set(v.voter, Some(v.block));
                    match v.block {
                        Some(b) => {
                            let c = count_votes(&self.precommits, v.block);
                            if c >= q {
                                self.enter_height(self.height + 1, b);
                                Outcome::Commit(b)
                            } else {
                                Outcome::Recorded
                            }
                        },
                        None => Outcome::Recorded,
                    }
                }
            },
        }
    }

    /// Takes the expiry of a countdown.
    pub fn handle_timeout(&mut self, t: &Timeout) -> (r: Outcome)
        requires
            old(self).wf(),
            t.step != Step::Precommit || old(self).round < u64::MAX,
        ensures
            (final(self)@, r) == on_timeout(old(self)@, *t),
            final(self).wf(),
    {
        if t.height != self.height || t.round != self.round || t.step != self.step {
            return Outcome::Ignored;
        }
        match self.step {
            Step::Propose => {
                self.step = Step::Prevote;
                Outcome::Prevote(None)
            },
            Step::Prevote => {
                self.step = Step::Precommit;
                Outcome::Precommit(None)
            },
            Step::Precommit => {
                self.round = self.round + 1;
                self.step = Step::Propose;
                self.proposal = None;
                self.proposal_valid_round = None;
                self.proposal_conflict = false;
                self.prevotes = new_tally(self.validators);
                self.precommits = new_tally(self.validators);
                Outcome::NewRound(self.round)
            },
            Step::Commit => Outcome::Ignored,
        }
    }

    /// Takes a chain status.
    pub fn handle_status(&mut self, st: &Status) -> (r: Outcome)
        requires
            old(self).wf(),
            st.height < u64::MAX,
        ensures
            (final(self)@, r) == on_status(old(self)@, *st),
            final(self).wf(),
    {
        if st.height < self.height {
            return Outcome::Ignored;
        }
        self.enter_height(st.height + 1, st.block);
        Outcome::Synced(st.height + 1)
    }

    /// The countdown to arm for the state the engine is in.
    pub fn current_timeout(&self) -> (r: Timeout)
        ensures
            r == (Timeout { height: self.height, round: self.round, step: self.step }),
    {
        Timeout { height: self.height, round: self.round, step: self.step }
    }

    /// Whether this node proposes in the current round.
    pub fn is_proposer(&self) -> (r: bool)
        requires
            self.wf(),
        ensures
            r == (self.me == proposer_of(self.height, self.round, self.validators, self.rotation)),
    {
        proposer(self.height, self.round, self.validators, self.rotation) == self.me
    }

    /// The block this node must propose when it is the proposer: its locked
    /// block, with the round a quorum prevoted it in, if it holds a lock;
    /// else `None`, and a fresh block is assembled.
    pub fn proposal_value(&self) -> (r: Option<Lock>)
        ensures
            r == self.lock,
    {
        self.lock
    }

    /// Takes any event of the inbox.
    pub fn handle(&mut self, e: &Event) -> (r: Outcome)
        requires
            old(self).wf(),
            room_for(old(self)@, *e),
        ensures
            (final(self)@, r) == next(old(self)@, *e),
            final(self).wf(),
    {
        match e {
            Event::Proposal(p) => self.handle_proposal(p),
            Event::Vote(v) => self.handle_vote(v),
            Event::Timeout(t) => self.handle_timeout(t),
            Event::Verified(d) => self.handle_verified(d),
            Event::Status(st) => self.handle_status(st),
        }
    }
}

} // verus!
