use vstd::prelude::*;
use vstd::string::StrSliceExecFns;
use crate::identity::Identity;

verus! {

/// Seconds in one day of probation.
pub const SECONDS_PER_DAY: u64 = 86400;

/// Most characters an apology message may hold.
pub const MAX_MESSAGE_LEN: usize = 500;

/// Most characters a victim's handle may hold.
pub const MAX_HANDLE_LEN: usize = 50;

/// Status of an apology.
#[derive(Clone, Copy, Debug, PartialEq, Eq, Structural)]
pub enum ApologyStatus {
    /// The apology is active and its stake is locked.
    Active,
    /// The stake has been released or claimed.
    Completed,
}

/// How an apology was resolved.
#[derive(Clone, Copy, Debug, PartialEq, Eq, Structural)]
pub enum ApologyResolution {
    /// The stake went back to the offender.
    Released,
    /// The stake went to the victim.
    Claimed,
}

/// Why an operation on an apology was rejected. A rejected operation
/// changes nothing.
#[derive(Clone, Copy, Debug, PartialEq, Eq, Structural)]
pub enum ApologyError {
    /// The apology is not active.
    InvalidStatus,
    /// The probation period has not ended.
    ProbationNotEnded,
    /// Someone other than the victim tried a victim-only action.
    UnauthorizedVictim,
    /// Probation is zero days, or ends past the last representable second.
    InvalidProbationDays,
    /// The message is empty.
    EmptyMessage,
    /// Offender and victim are the same identity.
    InvalidVictim,
    /// The offender holds less than the stake.
    InsufficientFunds,
    /// The stake is zero.
    InvalidStakeAmount,
    /// The message is longer than `MAX_MESSAGE_LEN` characters.
    MessageTooLong,
    /// The victim's handle is longer than `MAX_HANDLE_LEN` characters.
    HandleTooLong,
    /// An account handed in is not the one that the record's seeds derive,
    /// or not the party that the record names.
    InvalidAccount,
}

/// The escrow record of one apology.
#[derive(Clone, Debug)]
pub struct Apology {
    /// The apologizing party, who staked.
    pub offender: Identity,
    /// The party receiving the apology, who resolves it.
    pub victim: Identity,
    /// Caller-chosen number that tells apart records of one pair.
    pub nonce: i64,
    /// Lamports staked.
    pub stake_amount: u64,
    /// Unix time at which probation ends.
    pub probation_end: i64,
    /// Unix time at which the record was created.
    pub created_at: i64,
    /// Whether the apology is still active.
    pub status: ApologyStatus,
    /// The apology's text.
    pub message: String,
    /// The victim's handle, for display only.
    pub twitter: String,
}

/// Notice of a new apology.
#[derive(Clone, Debug)]
pub struct ApologyCreated {
    /// Address of the record.
    pub apology_id: Identity,
    pub offender: Identity,
    pub victim: Identity,
    pub stake_amount: u64,
    pub probation_days: u64,
    pub twitter: String,
}

/// Notice of a resolved apology.
#[derive(Clone, Copy, Debug)]
pub struct ApologyCompleted {
    /// Address of the record.
    pub apology_id: Identity,
    pub resolution: ApologyResolution,
}

/// When probation ends for a record created at `now`, in exact arithmetic.
pub open spec fn probation_end_of(now: i64, probation_days: u64) -> int {
    now + probation_days * SECONDS_PER_DAY
}

/// The first rule that a new apology breaks, if any.
pub open spec fn creation_error(
    offender: Seq<u8>,
    victim: Seq<u8>,
    offender_lamports: u64,
    now: i64,
    probation_days: u64,
    stake_amount: u64,
    message: Seq<char>,
    twitter: Seq<char>,
) -> Option<ApologyError> {
    if probation_days == 0 {
        Some(ApologyError::InvalidProbationDays)
    } else if message.len() == 0 {
        Some(ApologyError::EmptyMessage)
    } else if offender == victim {
        Some(ApologyError::InvalidVictim)
    } else if stake_amount > offender_lamports {
        Some(ApologyError::InsufficientFunds)
    } else if stake_amount == 0 {
        Some(ApologyError::InvalidStakeAmount)
    } else if probation_end_of(now, probation_days) > i64::MAX {
        Some(ApologyError::InvalidProbationDays)
    } else if message.len() > MAX_MESSAGE_LEN {
        Some(ApologyError::MessageTooLong)
    } else if twitter.len() > MAX_HANDLE_LEN {
        Some(ApologyError::HandleTooLong)
    } else {
        None
    }
}

/// The first guard that a resolution by `caller` at `now` fails, if any:
/// status first, then the timelock, then the caller.
pub open spec fn guard_error(apology: Apology, now: i64, caller: Seq<u8>) -> Option<ApologyError> {
    if apology.status != ApologyStatus::Active {
        Some(ApologyError::InvalidStatus)
    } else if now < apology.probation_end {
        Some(ApologyError::ProbationNotEnded)
    } else if caller != apology.victim@ {
        Some(ApologyError::UnauthorizedVictim)
    } else {
        None
    }
}

/// The record after its one resolution.
pub open spec fn resolved(apology: Apology) -> Apology {
    Apology { status: ApologyStatus::Completed, ..apology }
}

/// Balances of payer and vault after the stake moves into the vault.
pub open spec fn deposit(payer: u64, vault: u64, stake_amount: u64) -> (u64, u64) {
    ((payer - stake_amount) as u64, (vault + stake_amount) as u64)
}

/// Balances of payee and vault after resolution: the whole vault goes to
/// the payee, unless nothing was staked.
pub open spec fn payout(payee: u64, vault: u64, stake_amount: u64) -> (u64, u64) {
    if stake_amount > 0 {
        ((payee + vault) as u64, 0u64)
    } else {
        (payee, vault)
    }
}

/// Checks the inputs of a new apology and returns when its probation ends.
/// The offender's identity, balance and the time are those of the call.
pub fn validate_apology(
    offender: &Identity,
    victim: &Identity,
    offender_lamports: u64,
    now: i64,
    probation_days: u64,
    stake_amount: u64,
    message: &String,
    twitter: &String,
) -> (r: Result<i64, ApologyError>)
    ensures
        match creation_error(offender@, victim@, offender_lamports, now, probation_days, stake_amount, message@, twitter@) {
            Some(e) => r == Err::<i64, ApologyError>(e),
            None => r == Ok::<i64, ApologyError>(probation_end_of(now, probation_days) as i64),
        },
{
    if probation_days == 0 {
        return Err(ApologyError::InvalidProbationDays);
    }
    let message_len: usize = message.as_str().unicode_len();
    if message_len == 0 {
        return Err(ApologyError::EmptyMessage);
    }
    if offender.same_as(victim) {
        return Err(ApologyError::InvalidVictim);
    }
    if stake_amount > offender_lamports {
        return Err(ApologyError::InsufficientFunds);
    }
    if stake_amount == 0 {
        return Err(ApologyError::InvalidStakeAmount);
    }
    assert(0 <= probation_days * SECONDS_PER_DAY <= u64::MAX * 86400) by (nonlinear_arith)
        requires
            0 <= probation_days <= u64::MAX,
            SECONDS_PER_DAY == 86400,
    ;
    let end: i128 = now as i128 + probation_days as i128 * SECONDS_PER_DAY as i128;
    if end > i64::MAX as i128 {
        return Err(ApologyError::InvalidProbationDays);
    }
    if message_len > MAX_MESSAGE_LEN {
        return Err(ApologyError::MessageTooLong);
    }
    if twitter.as_str().unicode_len() > MAX_HANDLE_LEN {
        return Err(ApologyError::HandleTooLong);
    }
    Ok(end as i64)
}

/// Checks that `caller` may resolve `apology` at `now`: the record must be
/// active, its probation over, and the caller its victim, in that order.
pub fn check_resolution(apology: &Apology, now: i64, caller: &Identity) -> (r: Result<(), ApologyError>)
    ensures
        match guard_error(*apology, now, caller@) {
            Some(e) => r == Err::<(), ApologyError>(e),
            None => r is Ok,
        },
{
    match apology.status {
        ApologyStatus::Active => {},
        ApologyStatus::Completed => {
            return Err(ApologyError::InvalidStatus);
        },
    }
    if now < apology.probation_end {
        return Err(ApologyError::ProbationNotEnded);
    }
    if !caller.same_as(&apology.victim) {
        return Err(ApologyError::UnauthorizedVictim);
    }
    Ok(())
}

} // verus!
