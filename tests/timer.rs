use cita_bft::engine::{Step, Timeout};
use cita_bft::timer::{Timer, TimeoutPolicy};

fn policy() -> TimeoutPolicy {
    TimeoutPolicy { propose: 3000, prevote: 1000, precommit: 1500, increment: 500 }
}

#[test]
fn waits_grow_with_round() {
    let p = policy();
    assert_eq!(p.duration_for(Step::Propose, 0), 3000);
    assert_eq!(p.duration_for(Step::Prevote, 0), 1000);
    assert_eq!(p.duration_for(Step::Precommit, 2), 2500);
    assert_eq!(p.duration_for(Step::Commit, 4), 2000);
}

#[test]
fn waits_saturate() {
    let p = policy();
    assert_eq!(p.duration_for(Step::Propose, u64::MAX), u64::MAX);
    let q = TimeoutPolicy { propose: u64::MAX, prevote: 0, precommit: 0, increment: 1 };
    assert_eq!(q.duration_for(Step::Propose, 1), u64::MAX);
    assert_eq!(q.duration_for(Step::Prevote, 1), 1);
}

#[test]
fn arming_replaces_countdown() {
    let mut t = Timer::new();
    assert_eq!(t.expire(), None);
    let a = Timeout { height: 1, round: 0, step: Step::Propose };
    let b = Timeout { height: 1, round: 0, step: Step::Prevote };
    t.arm(a);
    t.arm(b);
    assert_eq!(t.expire(), Some(b));
    assert_eq!(t.expire(), None);
    t.arm(a);
    t.cancel();
    assert_eq!(t.expire(), None);
}
