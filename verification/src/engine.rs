//! The vesting engine: record initialization, schedule population and
//! fund-locking, time-gated unlock computation, and destination reassignment.
//!
//! Each operation validates the supplied accounts against the current record
//! (the authorization guard), then applies its effect; the first failing
//! check aborts the whole operation with no mutation. Moving the funds
//! themselves, deriving the record's address from its seed, verifying
//! signatures and reading the clock are the host runtime's part: `create`
//! and `unlock` return the exact amount the host must transfer, and `unlock`
//! takes the oracle's current time as an argument.

use vstd::prelude::*;

use crate::amounts::due_of;
use crate::amounts::lemma_due_le_total;
use crate::amounts::lemma_due_of_nonneg;
use crate::amounts::lemma_due_of_take_succ;
use crate::amounts::lemma_total_of_push;
use crate::amounts::lemma_total_of_take_le;
use crate::amounts::lemma_total_of_take_succ;
use crate::amounts::lemma_unlock_conserves_total;
use crate::amounts::reset_due;
use crate::amounts::total_of;
use crate::amounts::wf;
use crate::errors::VestingError;
use crate::state::AccountId;
use crate::state::Schedule;
use crate::state::TokenHolding;
use crate::state::Vesting;
use crate::state::VestingView;

verus! {

/// The accounts `create` checks: the record's own derived address, the
/// custody holding that will receive the locked funds, and the depositor's
/// source holding.
#[derive(Clone, Copy, Debug)]
pub struct Create {
    pub vesting_key: AccountId,
    pub vesting_token: TokenHolding,
    pub source_token: TokenHolding,
}

/// The accounts `unlock` checks: the record's own derived address, the
/// custody holding the funds leave, and the identity of the destination
/// holding to credit.
#[derive(Clone, Copy, Debug)]
pub struct Unlock {
    pub vesting_key: AccountId,
    pub vesting_token: TokenHolding,
    pub destination_token_key: AccountId,
}

/// The accounts `change_destination` checks: the currently registered
/// destination holding, the signer claiming authority over it, and the
/// identity of the new destination holding.
#[derive(Clone, Copy, Debug)]
pub struct ChangeDestination {
    pub current_destination_token: TokenHolding,
    pub destination_authority: AccountId,
    pub new_destination_token_key: AccountId,
}

/// The exact outcome of `create`: the first failing check, or the total
/// amount the host must move from the source holding into custody.
pub open spec fn create_outcome(
    v: VestingView,
    accounts: Create,
    schedules: Seq<Schedule>,
) -> Result<u64, VestingError> {
    if v.is_initialized {
        Err(VestingError::AlreadyInitialized)
    } else if v.schedule.len() != schedules.len() {
        Err(VestingError::InvalidScheduleLen)
    } else if accounts.vesting_token.owner != accounts.vesting_key {
        Err(VestingError::InvalidVestingTokenAuthority)
    } else if accounts.vesting_token.delegate is Some {
        Err(VestingError::InvalidVestingTokenDelegateAuthority)
    } else if accounts.vesting_token.close_authority is Some {
        Err(VestingError::InvalidVestingTokenCloseAuthority)
    } else if total_of(schedules) > u64::MAX {
        Err(VestingError::TotalAmountOverflow)
    } else if accounts.source_token.amount <= total_of(schedules) {
        Err(VestingError::InsufficientFunds)
    } else {
        Ok(total_of(schedules) as u64)
    }
}

/// The exact outcome of `unlock` at time `now`: the first failing check, or
/// the amount due that the host must move from custody to the destination.
/// The due amount of a well-formed record always fits the 64-bit range.
pub open spec fn unlock_outcome(v: VestingView, accounts: Unlock, now: u64) -> Result<
    u64,
    VestingError,
> {
    if !v.is_initialized {
        Err(VestingError::NotInitialized)
    } else if v.destination_address != accounts.destination_token_key {
        Err(VestingError::InvalidDestination)
    } else if accounts.vesting_token.owner != accounts.vesting_key {
        Err(VestingError::InvalidVestingTokenAuthority)
    } else if due_of(v.schedule, now) == 0 {
        Err(VestingError::ReleaseTimeNotYetReached)
    } else {
        Ok(due_of(v.schedule, now) as u64)
    }
}

/// The exact outcome of `change_destination`: the first failing check, or
/// success. No funds move either way.
pub open spec fn change_destination_outcome(v: VestingView, accounts: ChangeDestination) -> Result<
    (),
    VestingError,
> {
    if !v.is_initialized {
        Err(VestingError::NotInitialized)
    } else if v.destination_address != accounts.current_destination_token.key {
        Err(VestingError::InvalidDestination)
    } else if accounts.current_destination_token.owner != accounts.destination_authority {
        Err(VestingError::InvalidDestinationAuthority)
    } else {
        Ok(())
    }
}

/// Allocates a fresh, unpopulated record with exactly `number_of_schedules`
/// zeroed tranches. Its capacity is fixed here once and for all; no funds
/// move. Rejecting a second allocation at the same derived address is the
/// host allocator's part.
pub fn init(number_of_schedules: u32) -> (v: Vesting)
    ensures
        !v@.is_initialized,
        v@.destination_address == (AccountId { w0: 0, w1: 0, w2: 0, w3: 0 }),
        v@.mint_address == (AccountId { w0: 0, w1: 0, w2: 0, w3: 0 }),
        v@.schedule.len() == number_of_schedules,
        forall|i: int|
            0 <= i < v@.schedule.len() ==> v@.schedule[i] == (Schedule {
                release_time: 0,
                amount: 0,
            }),
        wf(v@),
{
    let mut schedule: Vec<Schedule> = Vec::new();
    let mut i: u32 = 0;
    while i < number_of_schedules
        invariant
            i <= number_of_schedules,
            schedule@.len() == i,
            total_of(schedule@) == 0,
            forall|j: int|
                0 <= j < schedule@.len() ==> schedule@[j] == (Schedule {
                    release_time: 0,
                    amount: 0,
                }),
        decreases number_of_schedules - i,
    {
        proof {
            lemma_total_of_push(schedule@, Schedule { release_time: 0, amount: 0 });
        }
        schedule.push(Schedule { release_time: 0, amount: 0 });
        i = i + 1;
    }
    Vesting {
        destination_address: AccountId::zeroed(),
        mint_address: AccountId::zeroed(),
        is_initialized: false,
        schedule,
    }
}

/// Aggregates the schedule amounts with overflow-checked addition; the sum is
/// returned exactly when it fits the 64-bit range.
pub fn total_amount(schedules: &Vec<Schedule>) -> (r: Result<u64, VestingError>)
    ensures
        match r {
            Ok(total) => total == total_of(schedules@),
            Err(e) => e == VestingError::TotalAmountOverflow && total_of(schedules@) > u64::MAX,
        },
        total_of(schedules@) <= u64::MAX ==> r is Ok,
{
    let mut sum: u64 = 0;
    let mut i: usize = 0;
    while i < schedules.len()
        invariant
            0 <= i <= schedules@.len(),
            sum == total_of(schedules@.take(i as int)),
        decreases schedules@.len() - i,
    {
        let amt = schedules[i].amount;
        proof {
            lemma_total_of_take_succ(schedules@, i as int);
        }
        if amt > u64::MAX - sum {
            proof {
                lemma_total_of_take_le(schedules@, i + 1);
            }
            return Err(VestingError::TotalAmountOverflow);
        }
        sum = sum + amt;
        i = i + 1;
    }
    proof {
        assert(schedules@.take(schedules@.len() as int) =~= schedules@);
    }
    Ok(sum)
}

/// Plain summation of the amounts already due at `now`; it cannot wrap
/// because the record's total was validated when the funds were locked.
pub fn total_amount_to_transfer(schedules: &Vec<Schedule>, now: u64) -> (r: u64)
    requires
        total_of(schedules@) <= u64::MAX,
    ensures
        r == due_of(schedules@, now),
{
    let mut sum: u64 = 0;
    let mut i: usize = 0;
    while i < schedules.len()
        invariant
            0 <= i <= schedules@.len(),
            total_of(schedules@) <= u64::MAX,
            sum == due_of(schedules@.take(i as int), now),
        decreases schedules@.len() - i,
    {
        proof {
            lemma_due_of_take_succ(schedules@, now, i as int);
            lemma_due_le_total(schedules@.take(i + 1), now);
            lemma_total_of_take_le(schedules@, i + 1);
        }
        if schedules[i].release_time <= now {
            sum = sum + schedules[i].amount;
        }
        i = i + 1;
    }
    proof {
        assert(schedules@.take(schedules@.len() as int) =~= schedules@);
    }
    sum
}

/// Zeroes in place the amount of every tranche already due at `now`, leaving
/// every other tranche untouched.
pub fn reset_released_amount(schedules: &mut Vec<Schedule>, now: u64)
    ensures
        final(schedules)@ == reset_due(old(schedules)@, now),
{
    let ghost orig = schedules@;
    let mut i: usize = 0;
    while i < schedules.len()
        invariant
            0 <= i <= schedules@.len(),
            schedules@.len() == orig.len(),
            forall|j: int| 0 <= j < i ==> schedules@[j] == #[trigger] reset_due(orig, now)[j],
            forall|j: int| i <= j < orig.len() ==> schedules@[j] == orig[j],
        decreases schedules@.len() - i,
    {
        if schedules[i].release_time <= now {
            schedules[i].amount = 0;
        }
        i = i + 1;
    }
    proof {
        assert(schedules@ =~= reset_due(orig, now));
    }
}

/// Populates the record and locks the funds: after the guard passes, the
/// destination and asset identities are registered, the schedule list is
/// stored, the record becomes initialized, and the returned total — strictly
/// less than the source balance — is what the host must move from the source
/// holding into custody under the depositor's own signature. On any
/// rejection the record is untouched.
pub fn create(
    vesting: &mut Vesting,
    accounts: &Create,
    mint_address: AccountId,
    destination_token_address: AccountId,
    schedules: Vec<Schedule>,
) -> (r: Result<u64, VestingError>)
    ensures
        r == create_outcome(old(vesting)@, *accounts, schedules@),
        r is Err ==> final(vesting)@ == old(vesting)@,
        r is Ok ==> final(vesting)@ == (VestingView {
            destination_address: destination_token_address,
            mint_address: mint_address,
            is_initialized: true,
            schedule: schedules@,
        }),
        final(vesting)@.schedule.len() == old(vesting)@.schedule.len(),
        wf(old(vesting)@) ==> wf(final(vesting)@),
{
    if vesting.is_initialized {
        return Err(VestingError::AlreadyInitialized);
    }
    if vesting.schedule.len() != schedules.len() {
        return Err(VestingError::InvalidScheduleLen);
    }
    if accounts.vesting_token.owner != accounts.vesting_key {
        return Err(VestingError::InvalidVestingTokenAuthority);
    }
    if accounts.vesting_token.delegate.is_some() {
        return Err(VestingError::InvalidVestingTokenDelegateAuthority);
    }
    if accounts.vesting_token.close_authority.is_some() {
        return Err(VestingError::InvalidVestingTokenCloseAuthority);
    }
    let total = match total_amount(&schedules) {
        Ok(total) => total,
        Err(e) => {
            return Err(e);
        },
    };
    if accounts.source_token.amount <= total {
        return Err(VestingError::InsufficientFunds);
    }
    vesting.destination_address = destination_token_address;
    vesting.mint_address = mint_address;
    vesting.is_initialized = true;
    vesting.schedule = schedules;
    Ok(total)
}

/// Releases what is due at `now`: after the guard passes and at least one
/// tranche is due, every due tranche is zeroed in place and the returned sum
/// of their amounts is what the host must move from custody to the
/// destination holding under the record's own derived authority. On any
/// rejection the record is untouched; with nothing newly due the call fails
/// rather than pay twice.
pub fn unlock(vesting: &mut Vesting, accounts: &Unlock, now: u64) -> (r: Result<u64, VestingError>)
    requires
        wf(old(vesting)@),
    ensures
        r == unlock_outcome(old(vesting)@, *accounts, now),
        r is Err ==> final(vesting)@ == old(vesting)@,
        r is Ok ==> final(vesting)@ == (VestingView {
            destination_address: old(vesting)@.destination_address,
            mint_address: old(vesting)@.mint_address,
            is_initialized: old(vesting)@.is_initialized,
            schedule: reset_due(old(vesting)@.schedule, now),
        }),
        final(vesting)@.schedule.len() == old(vesting)@.schedule.len(),
        r is Ok ==> forall|i: int|
            0 <= i < old(vesting)@.schedule.len() && old(vesting)@.schedule[i].release_time <= now
                ==> final(vesting)@.schedule[i].amount == 0,
        r is Ok ==> forall|i: int|
            0 <= i < old(vesting)@.schedule.len() && old(vesting)@.schedule[i].release_time > now
                ==> final(vesting)@.schedule[i] == old(vesting)@.schedule[i],
        wf(final(vesting)@),
{
    if !vesting.is_initialized {
        return Err(VestingError::NotInitialized);
    }
    if vesting.destination_address != accounts.destination_token_key {
        return Err(VestingError::InvalidDestination);
    }
    if accounts.vesting_token.owner != accounts.vesting_key {
        return Err(VestingError::InvalidVestingTokenAuthority);
    }
    let due = total_amount_to_transfer(&vesting.schedule, now);
    if due == 0 {
        return Err(VestingError::ReleaseTimeNotYetReached);
    }
    proof {
        lemma_unlock_conserves_total(vesting@.schedule, now);
        lemma_due_of_nonneg(vesting@.schedule, now);
    }
    reset_released_amount(&mut vesting.schedule, now);
    Ok(due)
}

/// Reassigns where future payouts go. Only control over the currently
/// registered destination grants this right; no funds move and no schedule
/// changes either way.
pub fn change_destination(vesting: &mut Vesting, accounts: &ChangeDestination) -> (r: Result<
    (),
    VestingError,
>)
    ensures
        r == change_destination_outcome(old(vesting)@, *accounts),
        r is Err ==> final(vesting)@ == old(vesting)@,
        r is Ok ==> final(vesting)@ == (VestingView {
            destination_address: accounts.new_destination_token_key,
            mint_address: old(vesting)@.mint_address,
            is_initialized: old(vesting)@.is_initialized,
            schedule: old(vesting)@.schedule,
        }),
        final(vesting)@.schedule == old(vesting)@.schedule,
        final(vesting)@.mint_address == old(vesting)@.mint_address,
        final(vesting)@.is_initialized == old(vesting)@.is_initialized,
        wf(old(vesting)@) ==> wf(final(vesting)@),
{
    if !vesting.is_initialized {
        return Err(VestingError::NotInitialized);
    }
    if vesting.destination_address != accounts.current_destination_token.key {
        return Err(VestingError::InvalidDestination);
    }
    if accounts.current_destination_token.owner != accounts.destination_authority {
        return Err(VestingError::InvalidDestinationAuthority);
    }
    vesting.destination_address = accounts.new_destination_token_key;
    Ok(())
}

/// Bytes of persistent storage a record with the given capacity needs on the
/// host ledger: an eight-byte tag, two 32-byte identities, the one-byte
/// initialization flag, and a length-prefixed list of 16-byte tranches.
pub fn calc_vesting_account_size(number_of_schedules: u32) -> (r: usize)
    requires
        77 + number_of_schedules as int * 16 <= usize::MAX,
    ensures
        r == 77 + number_of_schedules as int * 16,
{
    8 + 32 + 32 + 1 + 4 + (number_of_schedules as usize) * 2 * 8
}

} // verus!
