//! A custodial vesting ledger: a record holds a pool of funds on behalf of a
//! beneficiary and releases them according to a fixed list of time-gated
//! tranches. The record state machine — sizing, schedule population and
//! fund-locking, time-gated unlock computation, and destination reassignment —
//! is verified here; asset transfer, address derivation, signature checking
//! and the wall clock are host-runtime collaborators that callers supply.

mod amounts;
mod engine;
mod errors;
mod laws;
mod state;

pub use amounts::due_of;
pub use amounts::lemma_all_due_pays_total;
pub use amounts::lemma_nothing_due_after_reset;
pub use amounts::lemma_unlock_conserves_total;
pub use amounts::reset_due;
pub use amounts::total_of;
pub use amounts::wf;
pub use engine::calc_vesting_account_size;
pub use engine::change_destination;
pub use engine::change_destination_outcome;
pub use engine::create;
pub use engine::create_outcome;
pub use engine::init;
pub use engine::reset_released_amount;
pub use engine::total_amount;
pub use engine::total_amount_to_transfer;
pub use engine::unlock;
pub use engine::unlock_outcome;
pub use engine::ChangeDestination;
pub use engine::Create;
pub use engine::Unlock;
pub use errors::VestingError;
pub use laws::lemma_change_destination_controls;
pub use laws::lemma_create_succeeds_iff;
pub use laws::lemma_unlock_idempotent;
pub use state::AccountId;
pub use state::Schedule;
pub use state::TokenHolding;
pub use state::Vesting;
pub use state::VestingView;
