//! Properties that hold across the escrow's operations.
use vstd::prelude::*;
use crate::apology::{creation_error, guard_error, resolved, Apology, ApologyError, ApologyStatus};
use crate::instructions::{claimed, funded, released, ClaimStake, InitializeApology, ReleaseStake};

verus! {

/// No lamport is made or lost: after a creation moves the stake from the
/// offender into the vault, and a release pays the vault out to the offender
/// or a claim pays it out to the victim, offender, victim and vault together
/// hold what they held before the creation. The resolving accounts are those
/// that the creation left, and the three balances together fit in a `u64`,
/// as all lamports do.
pub proof fn lemma_conservation(
    create: InitializeApology,
    stake_amount: u64,
    release: ReleaseStake,
    claim: ClaimStake,
)
    requires
        stake_amount <= create.offender.lamports,
        create.offender.lamports + release.victim.lamports + create.vault.lamports <= u64::MAX,
        create.offender.lamports + claim.victim.lamports + create.vault.lamports <= u64::MAX,
        release.apology.stake_amount == stake_amount,
        release.offender.lamports == funded(create, stake_amount).offender.lamports,
        release.vault.lamports == funded(create, stake_amount).vault.lamports,
        claim.apology.stake_amount == stake_amount,
        claim.vault.lamports == funded(create, stake_amount).vault.lamports,
    ensures
        released(release).offender.lamports + released(release).victim.lamports
            + released(release).vault.lamports
            == create.offender.lamports + release.victim.lamports + create.vault.lamports,
        funded(create, stake_amount).offender.lamports + claimed(claim).victim.lamports
            + claimed(claim).vault.lamports
            == create.offender.lamports + claim.victim.lamports + create.vault.lamports,
{
}

/// A record is resolved at most once: once a release or a claim has passed
/// the guard, every later release or claim, at any time and by anyone,
/// fails with `InvalidStatus`.
pub proof fn lemma_resolution_once(
    release: ReleaseStake,
    claim: ClaimStake,
    now: i64,
    later: i64,
    caller: Seq<u8>,
)
    requires
        guard_error(release.apology, now, release.victim.key@) is None,
        guard_error(claim.apology, now, claim.victim.key@) is None,
    ensures
        released(release).apology.status == ApologyStatus::Completed,
        guard_error(released(release).apology, later, caller) == Some(ApologyError::InvalidStatus),
        claimed(claim).apology.status == ApologyStatus::Completed,
        guard_error(claimed(claim).apology, later, caller) == Some(ApologyError::InvalidStatus),
{
}

/// Before probation ends, resolving an active record fails with
/// `ProbationNotEnded`, whoever asks.
pub proof fn lemma_timelock(apology: Apology, now: i64, caller: Seq<u8>)
    requires
        apology.status == ApologyStatus::Active,
        now < apology.probation_end,
    ensures
        guard_error(apology, now, caller) == Some(ApologyError::ProbationNotEnded),
{
}

/// After probation, anyone but the record's victim who tries to resolve an
/// active record fails with `UnauthorizedVictim`.
pub proof fn lemma_victim_only(apology: Apology, now: i64, caller: Seq<u8>)
    requires
        apology.status == ApologyStatus::Active,
        now >= apology.probation_end,
        caller != apology.victim@,
    ensures
        guard_error(apology, now, caller) == Some(ApologyError::UnauthorizedVictim),
{
}

/// An offender cannot apologize to themselves: such a creation always fails
/// (and a failed creation changes nothing), and with a probation of at least
/// a day and a message it fails with `InvalidVictim`.
pub proof fn lemma_no_self_apology(
    party: Seq<u8>,
    lamports: u64,
    now: i64,
    probation_days: u64,
    stake_amount: u64,
    message: Seq<char>,
    twitter: Seq<char>,
)
    ensures
        creation_error(party, party, lamports, now, probation_days, stake_amount, message, twitter) is Some,
        probation_days > 0 && message.len() > 0 ==> creation_error(
            party,
            party,
            lamports,
            now,
            probation_days,
            stake_amount,
            message,
            twitter,
        ) == Some(ApologyError::InvalidVictim),
{
}

/// A record without stake is resolved without moving any lamport: release
/// and claim complete it and leave every balance as it was.
pub proof fn lemma_zero_stake(release: ReleaseStake, claim: ClaimStake)
    requires
        release.apology.stake_amount == 0,
        claim.apology.stake_amount == 0,
    ensures
        released(release).apology == resolved(release.apology),
        released(release).offender == release.offender,
        released(release).vault == release.vault,
        released(release).victim == release.victim,
        claimed(claim).apology == resolved(claim.apology),
        claimed(claim).victim == claim.victim,
        claimed(claim).vault == claim.vault,
{
}

/// Opening a record without stake is refused with `InvalidStakeAmount` once
/// the checks before it pass.
pub proof fn lemma_zero_stake_refused(
    offender: Seq<u8>,
    victim: Seq<u8>,
    lamports: u64,
    now: i64,
    probation_days: u64,
    message: Seq<char>,
    twitter: Seq<char>,
)
    requires
        probation_days > 0,
        message.len() > 0,
        offender != victim,
    ensures
        creation_error(offender, victim, lamports, now, probation_days, 0, message, twitter)
            == Some(ApologyError::InvalidStakeAmount),
{
}

} // verus!
