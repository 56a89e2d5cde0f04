//! Properties of the consensus state machine, proved over its spec functions.
use vstd::prelude::*;
use crate::tally::{count_of, empty_tally, lemma_count_fill, lemma_count_empty};
use crate::engine::{
    EngineState, Event, Lock, Outcome, Proposal, Step, Timeout, Verdict, Vote, may_prevote, next,
    on_proposal, on_timeout, on_verified, on_vote, proposer_of, quorum, room_for,
};

verus! {

/// The state after handling `votes` one after the other.
pub open spec fn run_votes(s: EngineState, votes: Seq<Vote>) -> EngineState
    decreases votes.len(),
{
    if votes.len() == 0 {
        s
    } else {
        run_votes(on_vote(s, votes[0]).0, votes.drop_first())
    }
}

/// Votes for another height change nothing.
pub proof fn lemma_stale_votes_ignored(s: EngineState, votes: Seq<Vote>)
    requires
        forall|i: int| 0 <= i < votes.len() ==> #[trigger] votes[i].height != s.height,
    ensures
        run_votes(s, votes) == s,
    decreases votes.len(),
{
    if votes.len() > 0 {
        let rest = votes.drop_first();
        assert forall|i: int| 0 <= i < rest.len() implies #[trigger] rest[i].height != s.height by {
            assert(rest[i] == votes[i + 1]);
        }
        lemma_stale_votes_ignored(s, rest);
    }
}

/// `votes` are votes of the height and round of `s` from members of the set:
/// prevotes of any value, and precommits for `b` from validators that have
/// not precommitted yet or precommitted `b`. Repeats are allowed.
pub open spec fn inbox_for(s: EngineState, votes: Seq<Vote>, b: u64) -> bool {
    forall|i: int|
        #![trigger votes[i]]
        0 <= i < votes.len() ==> {
            &&& votes[i].height == s.height
            &&& votes[i].round == s.round
            &&& votes[i].voter < s.validators
            &&& votes[i].step == Step::Prevote || (votes[i].step == Step::Precommit
                && votes[i].block == Some(b) && (s.precommits[votes[i].voter as int] is None
                || s.precommits[votes[i].voter as int] == Some(Some(b))))
        }
}

/// The validators that precommit in `votes` and have not precommitted in `s`.
pub open spec fn fresh_voters(s: EngineState, votes: Seq<Vote>) -> Set<int> {
    vstd::set_lib::set_int_range(0, s.validators as int).filter(
        |j: int|
            s.precommits[j] is None && exists|i: int|
                #![trigger votes[i]]
                0 <= i < votes.len() && votes[i].step == Step::Precommit && votes[i].voter == j,
    )
}

/// An inbox of prevotes and precommits for one block, repeats included, in
/// which enough validators precommit that block to reach a quorum with those
/// already counted, commits that block and starts the next height exactly
/// once, in whatever order it arrives.
pub proof fn lemma_inbox_commits_once(s: EngineState, votes: Seq<Vote>, b: u64)
    requires
        s.wf(),
        s.height < u64::MAX,
        inbox_for(s, votes, b),
        count_of(s.precommits, Some(b)) < quorum(s.validators as int),
        count_of(s.precommits, Some(b)) + fresh_voters(s, votes).len() >= quorum(
            s.validators as int,
        ),
    ensures
        run_votes(s, votes) == s.at_height((s.height + 1) as u64, Some(b)),
        run_votes(s, votes).height == s.height + 1,
        run_votes(s, votes).last_commit == Some(b),
        run_votes(s, votes).round == 0,
        run_votes(s, votes).lock is None,
    decreases votes.len(),
{
    let n = s.validators as int;
    let f = fresh_voters(s, votes);
    vstd::set_lib::lemma_int_range(0, n);
    if votes.len() == 0 {
        assert(f =~= Set::<int>::empty());
        assert(false);
    } else {
        let v = votes[0];
        let rest = votes.drop_first();
        let s1 = on_vote(s, v).0;
        let j = v.voter as int;
        assert(v.height == s.height);
        if v.step == Step::Precommit && s.precommits[j] is None {
            lemma_count_fill(s.precommits, j, Some(b), Some(b));
        }
        if v.step == Step::Precommit && s.precommits[j] is None && count_of(s.precommits, Some(b))
            + 1 >= quorum(n) {
            assert forall|i: int| 0 <= i < rest.len() implies #[trigger] rest[i].height
                != s1.height by {
                assert(rest[i] == votes[i + 1]);
            }
            lemma_stale_votes_ignored(s1, rest);
        } else {
            assert(s1.height == s.height && s1.round == s.round && s1.wf());
            assert forall|i: int| #![trigger rest[i]] 0 <= i < rest.len() implies {
                &&& rest[i].height == s1.height
                &&& rest[i].round == s1.round
                &&& rest[i].voter < s1.validators
                &&& rest[i].step == Step::Prevote || (rest[i].step == Step::Precommit
                    && rest[i].block == Some(b) && (s1.precommits[rest[i].voter as int] is None
                    || s1.precommits[rest[i].voter as int] == Some(Some(b))))
            } by {
                assert(rest[i] == votes[i + 1]);
                assert(votes[i + 1].height == s.height);
            }
            let f1 = fresh_voters(s1, rest);
            let fresh = v.step == Step::Precommit && s.precommits[j] is None;
            let kept = if fresh {
                f.remove(j)
            } else {
                f
            };
            assert(kept.subset_of(f1)) by {
                assert forall|k: int| #[trigger] kept.contains(k) implies f1.contains(k) by {
                    let i = choose|i: int|
                        #![trigger votes[i]]
                        0 <= i < votes.len() && votes[i].step == Step::Precommit && votes[i].voter
                            == k;
                    assert(i != 0);
                    assert(rest[i - 1] == votes[i]);
                }
            }
            assert(f1.subset_of(vstd::set_lib::set_int_range(0, n)));
            vstd::set_lib::lemma_len_subset(kept, f1);
            if fresh {
                assert(f.contains(j));
                assert(kept.len() == f.len() - 1);
            } else {
                assert(s1.precommits == s.precommits);
            }
            lemma_inbox_commits_once(s1, rest, b);
            assert(s1.at_height((s.height + 1) as u64, Some(b)) == s.at_height(
                (s.height + 1) as u64,
                Some(b),
            ));
        }
    }
}

/// When the prevotes of a round reach no quorum and the Prevote countdown
/// expires, the engine precommits nil and commits nothing; its height,
/// round and lock stay as they were.
pub proof fn lemma_split_prevotes_time_out_to_nil(s: EngineState)
    requires
        s.wf(),
        s.step == Step::Prevote,
        forall|v: Option<u64>| #[trigger] count_of(s.prevotes, v) < quorum(s.validators as int),
    ensures
        ({
            let (s2, o) = on_timeout(
                s,
                Timeout { height: s.height, round: s.round, step: Step::Prevote },
            );
            &&& o == Outcome::Precommit(None)
            &&& s2.step == Step::Precommit
            &&& s2.height == s.height
            &&& s2.round == s.round
            &&& s2.lock == s.lock
            &&& s2.last_commit == s.last_commit
        }),
{
}

/// Every event keeps the state well formed. Within a height, the lock moves
/// only to a block that a quorum prevoted in the current round, which is no
/// earlier than the round of the lock it replaces; it is never cleared or
/// replaced by a timeout. The engine prevotes only blocks that `may_prevote`
/// allows, and precommits a block only as it locks it.
pub proof fn lemma_lock_moves_only_on_quorum(s: EngineState, e: Event)
    requires
        s.wf(),
        room_for(s, e),
    ensures
        ({
            let (s2, o) = next(s, e);
            &&& s2.wf()
            &&& (s2.height == s.height && s2.lock != s.lock) ==> {
                &&& s2.lock matches Some(l)
                &&& l.round == s.round
                &&& s2.round == s.round
                &&& count_of(s2.prevotes, Some(l.block)) >= quorum(s.validators as int)
                &&& s.lock matches Some(l0) ==> l0.round <= l.round
            }
            &&& o matches Outcome::Prevote(Some(b)) ==> may_prevote(s, b, s.proposal_valid_round)
            &&& o matches Outcome::Precommit(Some(b)) ==> s2.lock == Some(
                Lock { block: b, round: s.round },
            )
        }),
{
    let n = s.validators as nat;
    assert(empty_tally(n).len() == n);
    match e {
        Event::Vote(v) => {
            if v.height == s.height && v.round == s.round && v.voter < s.validators {
                lemma_count_empty(n, v.block);
            }
        },
        _ => {},
    }
}

/// The engine never goes back: its height never decreases, and within a
/// height its round never decreases.
pub proof fn lemma_no_regression(s: EngineState, e: Event)
    requires
        s.wf(),
        room_for(s, e),
    ensures
        next(s, e).0.height >= s.height,
        next(s, e).0.height == s.height ==> next(s, e).0.round >= s.round,
{
}

/// Delivering the same vote a second time changes nothing.
pub proof fn lemma_vote_idempotent(s: EngineState, v: Vote)
    requires
        s.wf(),
        room_for(s, Event::Vote(v)),
    ensures
        on_vote(on_vote(s, v).0, v).0 == on_vote(s, v).0,
{
    let s1 = on_vote(s, v).0;
    if v.height == s.height && v.round == s.round && v.voter < s.validators && (v.step
        == Step::Prevote ==> s.prevotes[v.voter as int] is None) && (v.step == Step::Precommit
        ==> s.precommits[v.voter as int] is None) {
        if v.step == Step::Prevote {
            assert(s1.prevotes[v.voter as int] == Some(v.block));
        } else if v.step == Step::Precommit && s1.height == s.height {
            assert(s1.precommits[v.voter as int] == Some(v.block));
        }
    }
}

/// Two differing proposals of the round's proposer, taken at Propose, leave
/// the round with no accepted proposal: none is taken after them, no verdict
/// moves the engine on, and the Propose timeout leads to a nil prevote.
pub proof fn lemma_equivocating_proposer(s: EngineState, first: Proposal, second: Proposal)
    requires
        s.wf(),
        s.step == Step::Propose,
        first.height == s.height,
        second.height == s.height,
        first.round == s.round,
        second.round == s.round,
        first.proposer == proposer_of(s.height, s.round, s.validators, s.rotation),
        second.proposer == first.proposer,
        first.block != second.block,
    ensures
        ({
            let s2 = on_proposal(on_proposal(s, first).0, second).0;
            &&& s2.proposal is None
            &&& s2.proposal_conflict
            &&& s2.step == Step::Propose
            &&& s2.height == s.height
            &&& s2.round == s.round
            &&& s2.lock == s.lock
            &&& forall|later: Proposal| (#[trigger] on_proposal(s2, later)).0 == s2
            &&& forall|d: Verdict| (#[trigger] on_verified(s2, d)) == (s2, Outcome::Ignored)
            &&& on_timeout(s2, Timeout { height: s.height, round: s.round, step: Step::Propose })
                == (EngineState { step: Step::Prevote, ..s2 }, Outcome::Prevote(None))
        }),
{
}

} // verus!
