//! Laws of the vesting engine, stated over the outcome functions that the
//! operations' own contracts are written against.

use vstd::prelude::*;

use crate::amounts::lemma_nothing_due_after_reset;
use crate::amounts::reset_due;
use crate::amounts::total_of;
use crate::engine::change_destination_outcome;
use crate::engine::create_outcome;
use crate::engine::unlock_outcome;
use crate::engine::ChangeDestination;
use crate::engine::Create;
use crate::engine::Unlock;
use crate::errors::VestingError;
use crate::state::Schedule;
use crate::state::VestingView;

verus! {

/// Once the supplied accounts pass the authorization guard, `create`
/// succeeds exactly when the schedule amounts aggregate within the 64-bit
/// range and the source holding holds strictly more than that total.
pub proof fn lemma_create_succeeds_iff(v: VestingView, accounts: Create, schedules: Seq<Schedule>)
    requires
        !v.is_initialized,
        v.schedule.len() == schedules.len(),
        accounts.vesting_token.owner == accounts.vesting_key,
        accounts.vesting_token.delegate is None,
        accounts.vesting_token.close_authority is None,
    ensures
        create_outcome(v, accounts, schedules) is Ok <==> (total_of(schedules) <= u64::MAX
            && accounts.source_token.amount > total_of(schedules)),
        create_outcome(v, accounts, schedules) matches Ok(total) ==> total == total_of(schedules),
{
    crate::amounts::lemma_total_of_nonneg(schedules);
}

/// An unlock that paid out cannot pay again: at the same time, or at any
/// later time that makes no new tranche due, a second unlock is rejected for
/// having nothing to release.
pub proof fn lemma_unlock_idempotent(v: VestingView, accounts: Unlock, t1: u64, t2: u64)
    requires
        unlock_outcome(v, accounts, t1) is Ok,
        forall|i: int|
            0 <= i < v.schedule.len() ==> (v.schedule[i].release_time <= t2
                ==> v.schedule[i].release_time <= t1),
    ensures
        unlock_outcome(
            VestingView {
                destination_address: v.destination_address,
                mint_address: v.mint_address,
                is_initialized: v.is_initialized,
                schedule: reset_due(v.schedule, t1),
            },
            accounts,
            t2,
        ) == Err::<u64, VestingError>(VestingError::ReleaseTimeNotYetReached),
{
    lemma_nothing_due_after_reset(v.schedule, t1, t2);
}

/// `change_destination` succeeds exactly when the record is initialized, the
/// supplied holding is the registered destination, and the supplied
/// authority owns that holding — control over the current destination is
/// what grants the right to redirect future payouts.
pub proof fn lemma_change_destination_controls(v: VestingView, accounts: ChangeDestination)
    ensures
        change_destination_outcome(v, accounts) is Ok <==> (v.is_initialized
            && v.destination_address == accounts.current_destination_token.key
            && accounts.current_destination_token.owner == accounts.destination_authority),
{
}

} // verus!
