//! Aggregation over schedule lists: the total locked amount, the amount due
//! at a given time, and the reset that zeroes every tranche already due.

use vstd::prelude::*;

use crate::state::Schedule;
use crate::state::VestingView;

verus! {

/// Sum of every tranche's amount, as an unbounded integer.
pub open spec fn total_of(s: Seq<Schedule>) -> int
    decreases s.len(),
{
    if s.len() == 0 {
        0
    } else {
        total_of(s.drop_last()) + s.last().amount
    }
}

/// Sum of the amounts of the tranches already due at `now`.
pub open spec fn due_of(s: Seq<Schedule>, now: u64) -> int
    decreases s.len(),
{
    if s.len() == 0 {
        0
    } else {
        due_of(s.drop_last(), now) + if s.last().release_time <= now {
            s.last().amount as int
        } else {
            0
        }
    }
}

/// The schedule list after an unlock at `now`: every tranche already due has
/// its amount zeroed in place, every other tranche is untouched.
pub open spec fn reset_due(s: Seq<Schedule>, now: u64) -> Seq<Schedule> {
    Seq::new(
        s.len(),
        |i: int|
            if s[i].release_time <= now {
                Schedule { release_time: s[i].release_time, amount: 0 }
            } else {
                s[i]
            },
    )
}

/// A record is well formed when its schedule amounts aggregate without
/// overflowing the 64-bit range; every operation of the engine keeps this.
pub open spec fn wf(v: VestingView) -> bool {
    total_of(v.schedule) <= u64::MAX
}

pub proof fn lemma_total_of_nonneg(s: Seq<Schedule>)
    ensures
        total_of(s) >= 0,
    decreases s.len(),
{
    if s.len() > 0 {
        lemma_total_of_nonneg(s.drop_last());
    }
}

pub proof fn lemma_due_of_nonneg(s: Seq<Schedule>, now: u64)
    ensures
        due_of(s, now) >= 0,
    decreases s.len(),
{
    if s.len() > 0 {
        lemma_due_of_nonneg(s.drop_last(), now);
    }
}

pub proof fn lemma_total_of_push(s: Seq<Schedule>, x: Schedule)
    ensures
        total_of(s.push(x)) == total_of(s) + x.amount,
{
    assert(s.push(x).drop_last() =~= s);
}

pub proof fn lemma_total_of_take_succ(s: Seq<Schedule>, i: int)
    requires
        0 <= i < s.len(),
    ensures
        total_of(s.take(i + 1)) == total_of(s.take(i)) + s[i].amount,
{
    assert(s.take(i + 1).drop_last() =~= s.take(i));
    assert(s.take(i + 1).last() == s[i]);
}

pub proof fn lemma_due_of_take_succ(s: Seq<Schedule>, now: u64, i: int)
    requires
        0 <= i < s.len(),
    ensures
        due_of(s.take(i + 1), now) == due_of(s.take(i), now) + if s[i].release_time <= now {
            s[i].amount as int
        } else {
            0
        },
{
    assert(s.take(i + 1).drop_last() =~= s.take(i));
    assert(s.take(i + 1).last() == s[i]);
}

/// A prefix never sums to more than the whole list.
pub proof fn lemma_total_of_take_le(s: Seq<Schedule>, i: int)
    requires
        0 <= i <= s.len(),
    ensures
        total_of(s.take(i)) <= total_of(s),
    decreases s.len() - i,
{
    if i == s.len() {
        assert(s.take(i) =~= s);
    } else {
        lemma_total_of_take_succ(s, i);
        lemma_total_of_take_le(s, i + 1);
    }
}

/// What is due at any time is part of the total that is locked.
pub proof fn lemma_due_le_total(s: Seq<Schedule>, now: u64)
    ensures
        due_of(s, now) <= total_of(s),
    decreases s.len(),
{
    if s.len() > 0 {
        lemma_due_le_total(s.drop_last(), now);
    }
}

/// Once every tranche has reached its release time, what is due is the whole
/// locked total: nothing is ever withheld forever.
pub proof fn lemma_all_due_pays_total(s: Seq<Schedule>, now: u64)
    requires
        forall|i: int| 0 <= i < s.len() ==> s[i].release_time <= now,
    ensures
        due_of(s, now) == total_of(s),
    decreases s.len(),
{
    if s.len() > 0 {
        lemma_all_due_pays_total(s.drop_last(), now);
        assert(s[s.len() - 1] == s.last());
    }
}

/// Funds are conserved by an unlock: what stays locked after the reset plus
/// what was paid out is exactly what was locked before.
pub proof fn lemma_unlock_conserves_total(s: Seq<Schedule>, now: u64)
    ensures
        total_of(reset_due(s, now)) + due_of(s, now) == total_of(s),
    decreases s.len(),
{
    if s.len() == 0 {
        assert(reset_due(s, now) =~= s);
    } else {
        lemma_unlock_conserves_total(s.drop_last(), now);
        assert(reset_due(s, now).drop_last() =~= reset_due(s.drop_last(), now));
    }
}

/// After a reset at `t1`, nothing is due at any time `t2` that makes no new
/// tranche due: every tranche due by `t2` was already due by `t1`, so its
/// amount is zero.
pub proof fn lemma_nothing_due_after_reset(s: Seq<Schedule>, t1: u64, t2: u64)
    requires
        forall|i: int|
            0 <= i < s.len() ==> (s[i].release_time <= t2 ==> s[i].release_time <= t1),
    ensures
        due_of(reset_due(s, t1), t2) == 0,
    decreases s.len(),
{
    if s.len() == 0 {
        assert(reset_due(s, t1) =~= s);
    } else {
        lemma_nothing_due_after_reset(s.drop_last(), t1, t2);
        assert(reset_due(s, t1).drop_last() =~= reset_due(s.drop_last(), t1));
        assert(s[s.len() - 1] == s.last());
    }
}

} // verus!
