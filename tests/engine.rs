use cita_bft::engine::{
    proposer, quorum_size, Engine, Event, Lock, Outcome, Proposal, Rotation, Status, Step, Timeout, Verdict, Vote,
};

fn vote(height: u64, round: u64, step: Step, voter: usize, block: Option<u64>) -> Vote {
    Vote { height, round, step, voter, block }
}

fn proposal(height: u64, round: u64, proposer: usize, block: u64) -> Proposal {
    Proposal { height, round, proposer, block, valid_round: None }
}

fn verdict(height: u64, round: u64, block: u64, ok: bool) -> Verdict {
    Verdict { height, round, block, ok }
}

/// Four validators at height 5, this node being P0, proposers by round.
fn four_at_five() -> Engine {
    Engine::new(4, 0, Rotation::Round, 5)
}

/// Takes the round's proposal of `block` from `from` and a positive verdict.
fn accept(e: &mut Engine, from: usize, block: u64) -> Outcome {
    let (h, r) = (e.height, e.round);
    assert_eq!(e.handle_proposal(&proposal(h, r, from, block)), Outcome::Verify(block));
    assert_eq!(e.step, Step::Propose);
    e.handle_verified(&verdict(h, r, block, true))
}

#[test]
fn quorum_of_equal_weights() {
    assert_eq!(quorum_size(1), 1);
    assert_eq!(quorum_size(3), 3);
    assert_eq!(quorum_size(4), 3);
    assert_eq!(quorum_size(6), 5);
    assert_eq!(quorum_size(7), 5);
    assert_eq!(quorum_size(100), 67);
    assert_eq!(quorum_size(usize::MAX), usize::MAX / 3 * 2 + 1);
}

#[test]
fn proposer_rotation() {
    assert_eq!(proposer(5, 0, 4, Rotation::HeightAndRound), 1);
    assert_eq!(proposer(5, 1, 4, Rotation::HeightAndRound), 2);
    assert_eq!(proposer(5, 3, 4, Rotation::HeightAndRound), 0);
    assert_eq!(proposer(u64::MAX, u64::MAX, 3, Rotation::HeightAndRound), 0);
    assert_eq!(proposer(u64::MAX, 1, 7, Rotation::HeightAndRound), ((u64::MAX as u128 + 1) % 7) as usize);
    assert_eq!(proposer(5, 0, 4, Rotation::Round), 0);
    assert_eq!(proposer(5, 6, 4, Rotation::Round), 2);
}

#[test]
fn commit_scenario_four_validators() {
    let mut e = four_at_five();
    let b = 0xB;
    assert_eq!(accept(&mut e, 0, b), Outcome::Prevote(Some(b)));
    assert_eq!(e.step, Step::Prevote);
    assert_eq!(e.handle_vote(&vote(5, 0, Step::Prevote, 0, Some(b))), Outcome::Recorded);
    assert_eq!(e.handle_vote(&vote(5, 0, Step::Prevote, 1, Some(b))), Outcome::Recorded);
    assert_eq!(e.handle_vote(&vote(5, 0, Step::Prevote, 2, Some(b))), Outcome::Precommit(Some(b)));
    assert_eq!(e.step, Step::Precommit);
    assert_eq!(e.lock, Some(Lock { block: b, round: 0 }));
    assert_eq!(e.handle_vote(&vote(5, 0, Step::Precommit, 0, Some(b))), Outcome::Recorded);
    assert_eq!(e.handle_vote(&vote(5, 0, Step::Precommit, 1, Some(b))), Outcome::Recorded);
    assert_eq!(e.handle_vote(&vote(5, 0, Step::Precommit, 2, Some(b))), Outcome::Commit(b));
    assert_eq!(e.height, 6);
    assert_eq!(e.round, 0);
    assert_eq!(e.step, Step::Propose);
    assert_eq!(e.lock, None);
    assert_eq!(e.last_commit, Some(b));
    assert!(e.prevotes.iter().all(|s| s.is_none()));
    assert!(e.precommits.iter().all(|s| s.is_none()));
}

#[test]
fn timeout_scenario_below_quorum() {
    let mut e = four_at_five();
    let b = 0xB;
    assert_eq!(accept(&mut e, 0, b), Outcome::Prevote(Some(b)));
    assert_eq!(e.handle_vote(&vote(5, 0, Step::Prevote, 0, Some(b))), Outcome::Recorded);
    assert_eq!(e.handle_vote(&vote(5, 0, Step::Prevote, 1, Some(b))), Outcome::Recorded);
    let t = e.current_timeout();
    assert_eq!(t, Timeout { height: 5, round: 0, step: Step::Prevote });
    assert_eq!(e.handle_timeout(&t), Outcome::Precommit(None));
    for k in 0..4 {
        assert_eq!(e.handle_vote(&vote(5, 0, Step::Precommit, k, None)), Outcome::Recorded);
    }
    assert_eq!(e.handle_timeout(&e.current_timeout()), Outcome::NewRound(1));
    assert_eq!((e.height, e.round, e.step), (5, 1, Step::Propose));
    assert_eq!(e.lock, None);
    assert_eq!(e.last_commit, None);
}

#[test]
fn split_prevotes_time_out_to_nil_precommit() {
    let mut e = four_at_five();
    accept(&mut e, 0, 1);
    e.handle_vote(&vote(5, 0, Step::Prevote, 0, Some(1)));
    e.handle_vote(&vote(5, 0, Step::Prevote, 1, Some(2)));
    e.handle_vote(&vote(5, 0, Step::Prevote, 2, None));
    e.handle_vote(&vote(5, 0, Step::Prevote, 3, Some(1)));
    assert_eq!(e.step, Step::Prevote);
    let out = e.handle(&Event::Timeout(Timeout { height: 5, round: 0, step: Step::Prevote }));
    assert_eq!(out, Outcome::Precommit(None));
    assert_eq!(e.step, Step::Precommit);
    assert_eq!(e.height, 5);
    assert_eq!(e.lock, None);
}

#[test]
fn lock_moves_on_later_quorum() {
    let mut e = four_at_five();
    let (b, b2) = (10, 20);
    accept(&mut e, 0, b);
    for k in 0..3 {
        e.handle_vote(&vote(5, 0, Step::Prevote, k, Some(b)));
    }
    assert_eq!(e.lock, Some(Lock { block: b, round: 0 }));
    assert_eq!(e.handle_timeout(&e.current_timeout()), Outcome::NewRound(1));
    assert_eq!(e.lock, Some(Lock { block: b, round: 0 }));
    // The round-1 proposer offers another block: the lock forbids prevoting it.
    assert_eq!(accept(&mut e, 1, b2), Outcome::Prevote(None));
    assert_eq!(e.lock, Some(Lock { block: b, round: 0 }));
    assert_eq!(e.handle_vote(&vote(5, 1, Step::Prevote, 1, Some(b2))), Outcome::Recorded);
    assert_eq!(e.handle_vote(&vote(5, 1, Step::Prevote, 2, Some(b2))), Outcome::Recorded);
    assert_eq!(e.lock, Some(Lock { block: b, round: 0 }));
    assert_eq!(e.handle_vote(&vote(5, 1, Step::Prevote, 3, Some(b2))), Outcome::Precommit(Some(b2)));
    assert_eq!(e.lock, Some(Lock { block: b2, round: 1 }));
}

#[test]
fn lock_moves_on_quorum_rounds_later() {
    let mut e = four_at_five();
    for k in 0..3 {
        e.handle_vote(&vote(5, 0, Step::Prevote, k, Some(10)));
    }
    for _ in 0..1 + 3 * 3 {
        e.handle_timeout(&e.current_timeout());
    }
    assert_eq!(e.round, 4);
    assert_eq!(e.lock, Some(Lock { block: 10, round: 0 }));
    assert_eq!(e.handle_timeout(&e.current_timeout()), Outcome::Prevote(None));
    for k in 1..4 {
        e.handle_vote(&vote(5, 4, Step::Prevote, k, Some(20)));
    }
    assert_eq!(e.lock, Some(Lock { block: 20, round: 4 }));
    assert_eq!(e.step, Step::Precommit);
}

#[test]
fn lock_kept_over_timeouts() {
    let mut e = four_at_five();
    accept(&mut e, 0, 7);
    for k in 0..3 {
        e.handle_vote(&vote(5, 0, Step::Prevote, k, Some(7)));
    }
    for _ in 0..6 {
        let t = e.current_timeout();
        e.handle_timeout(&t);
    }
    assert_eq!(e.round, 2);
    assert_eq!(e.lock, Some(Lock { block: 7, round: 0 }));
    assert_eq!(e.proposal_value(), Some(Lock { block: 7, round: 0 }));
}

#[test]
fn duplicate_vote_counts_once() {
    let mut e = four_at_five();
    let v = vote(5, 0, Step::Prevote, 1, Some(3));
    assert_eq!(e.handle_vote(&v), Outcome::Recorded);
    let prevotes = e.prevotes.clone();
    assert_eq!(e.handle_vote(&v), Outcome::Duplicate);
    assert_eq!(e.prevotes, prevotes);
    assert_eq!(e.prevotes.iter().filter(|s| **s == Some(Some(3))).count(), 1);
}

#[test]
fn differing_vote_is_equivocation() {
    let mut e = four_at_five();
    assert_eq!(e.handle_vote(&vote(5, 0, Step::Precommit, 1, Some(3))), Outcome::Recorded);
    assert_eq!(e.handle_vote(&vote(5, 0, Step::Precommit, 1, Some(4))), Outcome::Equivocation);
    assert_eq!(e.handle_vote(&vote(5, 0, Step::Precommit, 1, None)), Outcome::Equivocation);
    assert_eq!(e.precommits[1], Some(Some(3)));
}

#[test]
fn equivocating_proposer_leaves_round_without_proposal() {
    let mut e = four_at_five();
    assert_eq!(e.handle_proposal(&proposal(5, 0, 0, 1)), Outcome::Verify(1));
    assert_eq!(e.handle_proposal(&proposal(5, 0, 0, 1)), Outcome::Duplicate);
    assert_eq!(e.handle_proposal(&proposal(5, 0, 0, 2)), Outcome::Equivocation);
    assert_eq!(e.proposal, None);
    assert_eq!(e.handle_proposal(&proposal(5, 0, 0, 1)), Outcome::Equivocation);
    assert_eq!(e.handle_verified(&verdict(5, 0, 1, true)), Outcome::Ignored);
    assert_eq!(e.handle_verified(&verdict(5, 0, 2, true)), Outcome::Ignored);
    assert_eq!((e.proposal, e.step), (None, Step::Propose));
    assert_eq!(e.handle_timeout(&e.current_timeout()), Outcome::Prevote(None));
    assert_eq!(e.handle_timeout(&e.current_timeout()), Outcome::Precommit(None));
    assert_eq!(e.handle_timeout(&e.current_timeout()), Outcome::NewRound(1));
    assert!(!e.proposal_conflict);
}

#[test]
fn refused_proposal_takes_timeout_path() {
    let mut e = four_at_five();
    assert_eq!(e.handle_proposal(&proposal(5, 0, 0, 1)), Outcome::Verify(1));
    assert_eq!(e.handle_verified(&verdict(5, 0, 1, false)), Outcome::Rejected);
    assert_eq!((e.proposal, e.step), (None, Step::Propose));
    assert_eq!(e.handle_verified(&verdict(5, 0, 1, true)), Outcome::Ignored);
    assert_eq!(e.handle_timeout(&e.current_timeout()), Outcome::Prevote(None));
}

#[test]
fn commit_in_any_vote_order() {
    let orders = [[0usize, 1, 2, 3], [3, 2, 1, 0], [2, 0, 3, 1], [1, 3, 0, 2]];
    for order in orders.iter() {
        let mut e = Engine::new(4, 2, Rotation::HeightAndRound, 9);
        let mut commits = 0;
        for &k in order.iter() {
            for _ in 0..2 {
                if let Outcome::Commit(b) = e.handle_vote(&vote(9, 0, Step::Precommit, k, Some(42))) {
                    assert_eq!(b, 42);
                    commits += 1;
                }
            }
        }
        assert_eq!(commits, 1);
        assert_eq!(e.height, 10);
        assert_eq!(e.last_commit, Some(42));
    }
}

#[test]
fn stale_and_foreign_messages_ignored() {
    let mut e = four_at_five();
    assert_eq!(e.handle_vote(&vote(4, 0, Step::Prevote, 0, Some(1))), Outcome::Ignored);
    assert_eq!(e.handle_vote(&vote(5, 1, Step::Prevote, 0, Some(1))), Outcome::Ignored);
    assert_eq!(e.handle_vote(&vote(5, 0, Step::Prevote, 4, Some(1))), Outcome::Ignored);
    assert_eq!(e.handle_vote(&vote(5, 0, Step::Propose, 0, Some(1))), Outcome::Ignored);
    assert_eq!(e.handle_proposal(&proposal(5, 0, 1, 1)), Outcome::Ignored);
    assert_eq!(e.handle_proposal(&proposal(4, 0, 0, 1)), Outcome::Ignored);
    assert_eq!(e.handle_verified(&verdict(5, 0, 1, true)), Outcome::Ignored);
    let stale = Timeout { height: 5, round: 0, step: Step::Precommit };
    assert_eq!(e.handle_timeout(&stale), Outcome::Ignored);
    assert_eq!((e.height, e.round, e.step), (5, 0, Step::Propose));
}

#[test]
fn propose_timeout_prevotes_nil_and_late_proposal_ignored() {
    let mut e = four_at_five();
    assert_eq!(e.handle_timeout(&e.current_timeout()), Outcome::Prevote(None));
    assert_eq!(e.step, Step::Prevote);
    assert_eq!(e.handle_proposal(&proposal(5, 0, 0, 1)), Outcome::Ignored);
    assert_eq!(e.proposal, None);
}

#[test]
fn nil_prevote_quorum_precommits_nil_and_keeps_lock() {
    let mut e = four_at_five();
    for k in 0..3 {
        e.handle_vote(&vote(5, 0, Step::Prevote, k, Some(8)));
    }
    e.handle_timeout(&e.current_timeout());
    assert_eq!(e.round, 1);
    for k in 0..2 {
        assert_eq!(e.handle_vote(&vote(5, 1, Step::Prevote, k, None)), Outcome::Recorded);
    }
    assert_eq!(e.handle_vote(&vote(5, 1, Step::Prevote, 2, None)), Outcome::Precommit(None));
    assert_eq!(e.lock, Some(Lock { block: 8, round: 0 }));
}

#[test]
fn proposer_helpers() {
    let e = four_at_five();
    assert!(e.is_proposer());
    assert_eq!(e.proposal_value(), None);
    let other = Engine::new(4, 1, Rotation::Round, 5);
    assert!(!other.is_proposer());
    let keyed = Engine::new(4, 1, Rotation::HeightAndRound, 5);
    assert!(keyed.is_proposer());
}

#[test]
fn status_ahead_jumps_height() {
    let mut e = four_at_five();
    e.handle_vote(&vote(5, 0, Step::Prevote, 0, Some(1)));
    assert_eq!(e.handle_status(&Status { height: 4, block: 99 }), Outcome::Ignored);
    assert_eq!(e.height, 5);
    assert_eq!(e.handle(&Event::Status(Status { height: 7, block: 99 })), Outcome::Synced(8));
    assert_eq!((e.height, e.round, e.step), (8, 0, Step::Propose));
    assert_eq!(e.last_commit, Some(99));
    assert!(e.prevotes.iter().all(|s| s.is_none()));
}

#[test]
fn counters_at_their_limit() {
    let mut e = Engine::new(4, 0, Rotation::Round, u64::MAX);
    // Prevotes and early timeouts need no next height or round.
    assert_eq!(e.handle_vote(&vote(u64::MAX, 0, Step::Prevote, 1, Some(1))), Outcome::Recorded);
    assert_eq!(e.handle_timeout(&e.current_timeout()), Outcome::Prevote(None));
}
