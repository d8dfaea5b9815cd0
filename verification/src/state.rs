//! Data model: account identities, release schedules, token holdings, and the
//! persistent vesting record together with its mathematical view.

use vstd::prelude::*;

verus! {

/// Identity of an account on the host ledger: its 32-byte address, held as
/// four 64-bit words. The engine only ever compares identities for equality;
/// deriving them from seeds is the host's concern.
#[derive(Clone, Copy, Debug, PartialEq, Eq, Structural)]
pub struct AccountId {
    pub w0: u64,
    pub w1: u64,
    pub w2: u64,
    pub w3: u64,
}

impl AccountId {
    /// The all-zero address a freshly allocated record starts with.
    pub fn zeroed() -> (r: AccountId)
        ensures
            r == (AccountId { w0: 0, w1: 0, w2: 0, w3: 0 }),
    {
        AccountId { w0: 0, w1: 0, w2: 0, w3: 0 }
    }
}

/// One release tranche: an amount that becomes due once `release_time` has
/// been reached (seconds since the Unix epoch).
#[derive(Clone, Copy, Debug, PartialEq, Eq, Structural)]
pub struct Schedule {
    pub release_time: u64,
    pub amount: u64,
}

/// What the engine reads of a token holding on the host ledger: its identity,
/// its owner, its optional delegate and close authorities, and its balance.
#[derive(Clone, Copy, Debug)]
pub struct TokenHolding {
    pub key: AccountId,
    pub owner: AccountId,
    pub delegate: Option<AccountId>,
    pub close_authority: Option<AccountId>,
    pub amount: u64,
}

/// The persistent vesting record: destination and asset identities, the
/// one-shot initialization flag, and the fixed-capacity schedule list.
#[derive(Debug)]
pub struct Vesting {
    pub destination_address: AccountId,
    pub mint_address: AccountId,
    pub is_initialized: bool,
    pub schedule: Vec<Schedule>,
}

/// Mathematical view of a `Vesting` record.
pub ghost struct VestingView {
    pub destination_address: AccountId,
    pub mint_address: AccountId,
    pub is_initialized: bool,
    pub schedule: Seq<Schedule>,
}

impl View for Vesting {
    type V = VestingView;

    open spec fn view(&self) -> VestingView {
        VestingView {
            destination_address: self.destination_address,
            mint_address: self.mint_address,
            is_initialized: self.is_initialized,
            schedule: self.schedule@,
        }
    }
}

} // verus!
