//! A time-locked escrow for public apologies backed by a stake.
//!
//! An offender opens an apology record addressed to a victim and moves a
//! stake into a vault bound to that record. Once the probation period is
//! over, the victim resolves the record exactly once: either the stake goes
//! back to the offender (release) or to the victim (claim).
pub mod identity;
pub mod address;
pub mod apology;
pub mod instructions;
pub mod laws;

pub use address::{apology_address, nonce_seed, vault_address};
pub use apology::{
    check_resolution, validate_apology, Apology, ApologyCompleted, ApologyCreated, ApologyError,
    ApologyResolution, ApologyStatus, MAX_HANDLE_LEN, MAX_MESSAGE_LEN, SECONDS_PER_DAY,
};
pub use identity::Identity;
pub use instructions::{
    check_accounts, claim_stake, initialize_apology, match_addresses, release_stake, ClaimStake,
    InitializeApology, ReleaseStake, Wallet,
};
