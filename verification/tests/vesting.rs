use token_vesting::calc_vesting_account_size;
use token_vesting::change_destination;
use token_vesting::create;
use token_vesting::init;
use token_vesting::reset_released_amount;
use token_vesting::total_amount;
use token_vesting::total_amount_to_transfer;
use token_vesting::unlock;
use token_vesting::AccountId;
use token_vesting::ChangeDestination;
use token_vesting::Create;
use token_vesting::Schedule;
use token_vesting::TokenHolding;
use token_vesting::Unlock;
use token_vesting::Vesting;
use token_vesting::VestingError;

fn key(id: u64) -> AccountId {
    AccountId { w0: id, w1: 0, w2: 0, w3: 0 }
}

fn holding(k: u64, owner: u64, amount: u64) -> TokenHolding {
    TokenHolding {
        key: key(k),
        owner: key(owner),
        delegate: None,
        close_authority: None,
        amount,
    }
}

const VESTING_KEY: u64 = 7;
const CUSTODY_KEY: u64 = 8;
const SOURCE_KEY: u64 = 9;
const DEPOSITOR_KEY: u64 = 10;
const DESTINATION_KEY: u64 = 6;
const MINT_KEY: u64 = 5;

fn create_accounts(source_amount: u64) -> Create {
    Create {
        vesting_key: key(VESTING_KEY),
        vesting_token: holding(CUSTODY_KEY, VESTING_KEY, 0),
        source_token: holding(SOURCE_KEY, DEPOSITOR_KEY, source_amount),
    }
}

fn unlock_accounts() -> Unlock {
    Unlock {
        vesting_key: key(VESTING_KEY),
        vesting_token: holding(CUSTODY_KEY, VESTING_KEY, 100),
        destination_token_key: key(DESTINATION_KEY),
    }
}

fn two_tranches() -> Vec<Schedule> {
    vec![
        Schedule { release_time: 100, amount: 50 },
        Schedule { release_time: 200, amount: 50 },
    ]
}

/// A record of capacity 2, populated and locked with the two-tranche list.
fn created_record() -> Vesting {
    let mut v = init(2);
    let r = create(
        &mut v,
        &create_accounts(101),
        key(MINT_KEY),
        key(DESTINATION_KEY),
        two_tranches(),
    );
    assert_eq!(r, Ok(100));
    v
}

#[test]
fn init_allocates_zeroed_record() {
    let v = init(3);
    assert!(!v.is_initialized);
    assert_eq!(v.schedule.len(), 3);
    for s in &v.schedule {
        assert_eq!(s.release_time, 0);
        assert_eq!(s.amount, 0);
    }
    assert_eq!(v.destination_address, key(0));
    assert_eq!(v.mint_address, key(0));
}

#[test]
fn init_zero_capacity() {
    let v = init(0);
    assert_eq!(v.schedule.len(), 0);
}

#[test]
fn create_locks_total_when_source_exceeds_it() {
    let v = created_record();
    assert!(v.is_initialized);
    assert_eq!(v.destination_address, key(DESTINATION_KEY));
    assert_eq!(v.mint_address, key(MINT_KEY));
    assert_eq!(v.schedule, two_tranches());
}

#[test]
fn create_rejects_source_equal_to_total() {
    let mut v = init(2);
    let r = create(
        &mut v,
        &create_accounts(100),
        key(MINT_KEY),
        key(DESTINATION_KEY),
        two_tranches(),
    );
    assert_eq!(r, Err(VestingError::InsufficientFunds));
    assert!(!v.is_initialized);
}

#[test]
fn create_rejects_overflowing_total() {
    let mut v = init(2);
    let schedules = vec![
        Schedule { release_time: 100, amount: u64::MAX },
        Schedule { release_time: 200, amount: 1 },
    ];
    let r = create(
        &mut v,
        &create_accounts(u64::MAX),
        key(MINT_KEY),
        key(DESTINATION_KEY),
        schedules,
    );
    assert_eq!(r, Err(VestingError::TotalAmountOverflow));
    assert!(!v.is_initialized);
}

#[test]
fn create_rejects_second_population() {
    let mut v = created_record();
    let r = create(
        &mut v,
        &create_accounts(101),
        key(MINT_KEY),
        key(DESTINATION_KEY),
        two_tranches(),
    );
    assert_eq!(r, Err(VestingError::AlreadyInitialized));
}

#[test]
fn create_rejects_mismatched_schedule_len() {
    let mut v = init(3);
    let r = create(
        &mut v,
        &create_accounts(101),
        key(MINT_KEY),
        key(DESTINATION_KEY),
        two_tranches(),
    );
    assert_eq!(r, Err(VestingError::InvalidScheduleLen));
    assert!(!v.is_initialized);
    assert_eq!(v.schedule.len(), 3);
}

#[test]
fn create_rejects_custody_not_owned_by_record() {
    let mut v = init(2);
    let mut accounts = create_accounts(101);
    accounts.vesting_token.owner = key(DEPOSITOR_KEY);
    let r = create(&mut v, &accounts, key(MINT_KEY), key(DESTINATION_KEY), two_tranches());
    assert_eq!(r, Err(VestingError::InvalidVestingTokenAuthority));
    assert!(!v.is_initialized);
}

#[test]
fn create_rejects_custody_with_delegate() {
    let mut v = init(2);
    let mut accounts = create_accounts(101);
    accounts.vesting_token.delegate = Some(key(DEPOSITOR_KEY));
    let r = create(&mut v, &accounts, key(MINT_KEY), key(DESTINATION_KEY), two_tranches());
    assert_eq!(r, Err(VestingError::InvalidVestingTokenDelegateAuthority));
}

#[test]
fn create_rejects_custody_with_close_authority() {
    let mut v = init(2);
    let mut accounts = create_accounts(101);
    accounts.vesting_token.close_authority = Some(key(DEPOSITOR_KEY));
    let r = create(&mut v, &accounts, key(MINT_KEY), key(DESTINATION_KEY), two_tranches());
    assert_eq!(r, Err(VestingError::InvalidVestingTokenCloseAuthority));
}

#[test]
fn unlock_pays_first_tranche_then_refuses_to_pay_again() {
    let mut v = created_record();
    let r = unlock(&mut v, &unlock_accounts(), 150);
    assert_eq!(r, Ok(50));
    assert_eq!(v.schedule[0], Schedule { release_time: 100, amount: 0 });
    assert_eq!(v.schedule[1], Schedule { release_time: 200, amount: 50 });

    let again = unlock(&mut v, &unlock_accounts(), 150);
    assert_eq!(again, Err(VestingError::ReleaseTimeNotYetReached));
    assert_eq!(v.schedule[0], Schedule { release_time: 100, amount: 0 });
    assert_eq!(v.schedule[1], Schedule { release_time: 200, amount: 50 });
}

#[test]
fn unlock_pays_out_everything_across_two_calls() {
    let mut v = created_record();
    let first = unlock(&mut v, &unlock_accounts(), 150);
    let second = unlock(&mut v, &unlock_accounts(), 250);
    assert_eq!(first, Ok(50));
    assert_eq!(second, Ok(50));
    assert_eq!(first.unwrap() + second.unwrap(), 100);
    assert_eq!(v.schedule[0], Schedule { release_time: 100, amount: 0 });
    assert_eq!(v.schedule[1], Schedule { release_time: 200, amount: 0 });
}

#[test]
fn unlock_pays_both_tranches_at_once_after_both_are_due() {
    let mut v = created_record();
    let r = unlock(&mut v, &unlock_accounts(), 250);
    assert_eq!(r, Ok(100));
    assert_eq!(v.schedule[0].amount, 0);
    assert_eq!(v.schedule[1].amount, 0);
}

#[test]
fn unlock_counts_tranche_due_exactly_at_now() {
    let mut v = created_record();
    let r = unlock(&mut v, &unlock_accounts(), 100);
    assert_eq!(r, Ok(50));
}

#[test]
fn unlock_rejects_before_any_release_time() {
    let mut v = created_record();
    let r = unlock(&mut v, &unlock_accounts(), 99);
    assert_eq!(r, Err(VestingError::ReleaseTimeNotYetReached));
    assert_eq!(v.schedule, two_tranches());
}

#[test]
fn unlock_rejects_unpopulated_record() {
    let mut v = init(2);
    let r = unlock(&mut v, &unlock_accounts(), 150);
    assert_eq!(r, Err(VestingError::NotInitialized));
}

#[test]
fn unlock_rejects_wrong_destination() {
    let mut v = created_record();
    let mut accounts = unlock_accounts();
    accounts.destination_token_key = key(99);
    let r = unlock(&mut v, &accounts, 150);
    assert_eq!(r, Err(VestingError::InvalidDestination));
    assert_eq!(v.schedule, two_tranches());
}

#[test]
fn unlock_rejects_custody_not_owned_by_record() {
    let mut v = created_record();
    let mut accounts = unlock_accounts();
    accounts.vesting_token.owner = key(99);
    let r = unlock(&mut v, &accounts, 150);
    assert_eq!(r, Err(VestingError::InvalidVestingTokenAuthority));
}

#[test]
fn unlock_pays_duplicate_release_times_together() {
    let mut v = init(2);
    let schedules = vec![
        Schedule { release_time: 100, amount: 30 },
        Schedule { release_time: 100, amount: 20 },
    ];
    let r = create(&mut v, &create_accounts(51), key(MINT_KEY), key(DESTINATION_KEY), schedules);
    assert_eq!(r, Ok(50));
    let due = unlock(&mut v, &unlock_accounts(), 100);
    assert_eq!(due, Ok(50));
    assert_eq!(v.schedule[0].amount, 0);
    assert_eq!(v.schedule[1].amount, 0);
}

#[test]
fn change_destination_redirects_future_payouts() {
    let mut v = created_record();
    let accounts = ChangeDestination {
        current_destination_token: holding(DESTINATION_KEY, DEPOSITOR_KEY, 0),
        destination_authority: key(DEPOSITOR_KEY),
        new_destination_token_key: key(42),
    };
    let r = change_destination(&mut v, &accounts);
    assert_eq!(r, Ok(()));
    assert_eq!(v.destination_address, key(42));
    assert_eq!(v.mint_address, key(MINT_KEY));
    assert!(v.is_initialized);
    assert_eq!(v.schedule, two_tranches());

    let old_destination = unlock(&mut v, &unlock_accounts(), 150);
    assert_eq!(old_destination, Err(VestingError::InvalidDestination));
    let mut u = unlock_accounts();
    u.destination_token_key = key(42);
    assert_eq!(unlock(&mut v, &u, 150), Ok(50));
}

#[test]
fn change_destination_rejects_unpopulated_record() {
    let mut v = init(2);
    let accounts = ChangeDestination {
        current_destination_token: holding(DESTINATION_KEY, DEPOSITOR_KEY, 0),
        destination_authority: key(DEPOSITOR_KEY),
        new_destination_token_key: key(42),
    };
    assert_eq!(change_destination(&mut v, &accounts), Err(VestingError::NotInitialized));
}

#[test]
fn change_destination_rejects_wrong_current_destination() {
    let mut v = created_record();
    let accounts = ChangeDestination {
        current_destination_token: holding(99, DEPOSITOR_KEY, 0),
        destination_authority: key(DEPOSITOR_KEY),
        new_destination_token_key: key(42),
    };
    assert_eq!(change_destination(&mut v, &accounts), Err(VestingError::InvalidDestination));
    assert_eq!(v.destination_address, key(DESTINATION_KEY));
}

#[test]
fn change_destination_rejects_authority_not_owning_destination() {
    let mut v = created_record();
    let accounts = ChangeDestination {
        current_destination_token: holding(DESTINATION_KEY, DEPOSITOR_KEY, 0),
        destination_authority: key(99),
        new_destination_token_key: key(42),
    };
    assert_eq!(change_destination(&mut v, &accounts), Err(VestingError::InvalidDestinationAuthority));
    assert_eq!(v.destination_address, key(DESTINATION_KEY));
}

#[test]
fn total_amount_sums_exactly() {
    assert_eq!(total_amount(&two_tranches()), Ok(100));
    assert_eq!(total_amount(&Vec::new()), Ok(0));
    assert_eq!(
        total_amount(&vec![Schedule { release_time: 0, amount: u64::MAX }]),
        Ok(u64::MAX)
    );
}

#[test]
fn total_amount_rejects_overflow() {
    let schedules = vec![
        Schedule { release_time: 0, amount: u64::MAX },
        Schedule { release_time: 0, amount: 1 },
    ];
    assert_eq!(total_amount(&schedules), Err(VestingError::TotalAmountOverflow));
}

#[test]
fn total_amount_to_transfer_counts_only_due_tranches() {
    let schedules = two_tranches();
    assert_eq!(total_amount_to_transfer(&schedules, 99), 0);
    assert_eq!(total_amount_to_transfer(&schedules, 100), 50);
    assert_eq!(total_amount_to_transfer(&schedules, 150), 50);
    assert_eq!(total_amount_to_transfer(&schedules, 200), 100);
}

#[test]
fn reset_released_amount_zeroes_only_due_tranches() {
    let mut schedules = two_tranches();
    reset_released_amount(&mut schedules, 150);
    assert_eq!(schedules[0], Schedule { release_time: 100, amount: 0 });
    assert_eq!(schedules[1], Schedule { release_time: 200, amount: 50 });
}

#[test]
fn error_messages_identify_the_failed_check() {
    assert_eq!(
        VestingError::InsufficientFunds.message(),
        "The source token account has insufficient funds."
    );
    assert_eq!(
        VestingError::ReleaseTimeNotYetReached.message(),
        "Vesting contract has not yet reached release time"
    );
    assert_eq!(VestingError::TotalAmountOverflow.message(), "Total amount overflows u64");
}

#[test]
fn account_size_follows_capacity() {
    assert_eq!(calc_vesting_account_size(0), 77);
    assert_eq!(calc_vesting_account_size(2), 109);
}
