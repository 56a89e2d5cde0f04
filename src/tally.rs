//! Vote tallies: one slot per validator, holding the value that validator
//! voted for in the current round, if any.
//!
//! A slot is `None` while the validator has not voted, and `Some(v)` once it
//! has, where `v` is the block it voted for or `None` for a nil vote.
use vstd::prelude::*;

verus! {

/// What one validator voted for in one round and step.
pub type Slot = Option<Option<u64>>;

/// How many slots of `t` hold a vote for `v`.
pub open spec fn count_of(t: Seq<Slot>, v: Option<u64>) -> nat
    decreases t.len(),
{
    if t.len() == 0 {
        0
    } else {
        count_of(t.drop_last(), v) + if t.last() == Some(v) {
            1nat
        } else {
            0nat
        }
    }
}

/// A tally in which nobody has voted yet.
pub open spec fn empty_tally(n: nat) -> Seq<Slot> {
    Seq::new(n, |i: int| None)
}

/// Filling an empty slot with a vote for `v` adds one to the count of `v`
/// and leaves every other count as it was.
pub proof fn lemma_count_fill(t: Seq<Slot>, i: int, v: Option<u64>, w: Option<u64>)
    requires
        0 <= i < t.len(),
        t[i] is None,
    ensures
        count_of(t.update(i, Some(v)), w) == count_of(t, w) + if v == w {
            1nat
        } else {
            0nat
        },
    decreases t.len(),
{
    let u = t.update(i, Some(v));
    if i == t.len() - 1 {
        assert(u.drop_last() =~= t.drop_last());
    } else {
        lemma_count_fill(t.drop_last(), i, v, w);
        assert(u.drop_last() =~= t.drop_last().update(i, Some(v)));
    }
}

/// Nobody has voted in an empty tally.
pub proof fn lemma_count_empty(n: nat, w: Option<u64>)
    ensures
        count_of(empty_tally(n), w) == 0,
    decreases n,
{
    if n > 0 {
        lemma_count_empty((n - 1) as nat, w);
        assert(empty_tally(n).drop_last() =~= empty_tally((n - 1) as nat));
    }
}

/// Whether two votes name the same value.
pub fn same_value(a: Option<u64>, b: Option<u64>) -> (r: bool)
    ensures
        r == (a == b),
{
    match (a, b) {
        (None, None) => true,
        (Some(x), Some(y)) => x == y,
        _ => false,
    }
}

/// The number of validators whose slot in `t` holds a vote for `v`.
pub fn count_votes(t: &Vec<Slot>, v: Option<u64>) -> (r: usize)
    ensures
        r == count_of(t@, v),
{
    let mut c: usize = 0;
    let mut i: usize = 0;
    while i < t.len()
        invariant
            i <= t.len(),
            c == count_of(t@.subrange(0, i as int), v),
            c <= i,
        decreases t.len() - i,
    {
        assert(t@.subrange(0, i as int + 1).drop_last() =~= t@.subrange(0, i as int));
        match t[i] {
            Some(x) => {
                if same_value(x, v) {
                    c = c + 1;
                }
            },
            None => {},
        }
        i = i + 1;
    }
    assert(t@.subrange(0, t.len() as int) =~= t@);
    c
}

/// A tally of `n` empty slots.
pub fn new_tally(n: usize) -> (r: Vec<Slot>)
    ensures
        r@ == empty_tally(n as nat),
{
    let mut t: Vec<Slot> = Vec::new();
    let mut i: usize = 0;
    while i < n
        invariant
            i <= n,
            t@ =~= empty_tally(i as nat),
        decreases n - i,
    {
        t.push(None);
        i = i + 1;
    }
    t
}

} // verus!
