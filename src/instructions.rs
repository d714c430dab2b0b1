use vstd::prelude::*;
use crate::identity::Identity;
use crate::address::{apology_address, apology_seeds, program_address, vault_address, vault_seeds};
use crate::apology::{
    check_resolution, creation_error, deposit, guard_error, payout, probation_end_of, resolved,
    validate_apology, Apology, ApologyCompleted, ApologyCreated, ApologyError,
    ApologyResolution, ApologyStatus,
};

verus! {

/// An account taking part in an operation, with its balance in lamports.
#[derive(Clone, Copy, Debug)]
pub struct Wallet {
    pub key: Identity,
    pub lamports: u64,
}

/// Accounts for opening a new apology.
#[derive(Clone, Copy, Debug)]
pub struct InitializeApology {
    /// The escrow program, under which addresses are derived.
    pub program_id: Identity,
    /// Address at which the new record is to be stored.
    pub apology: Identity,
    /// The apologizing party; signs and pays the stake.
    pub offender: Wallet,
    /// The party receiving the apology.
    pub victim: Identity,
    /// Vault that is to hold the stake.
    pub vault: Wallet,
}

/// Accounts for releasing a stake back to the offender.
#[derive(Clone, Debug)]
pub struct ReleaseStake {
    pub program_id: Identity,
    /// Address at which the record is stored.
    pub apology_key: Identity,
    pub apology: Apology,
    /// The offender, who receives the stake.
    pub offender: Wallet,
    /// The signer, who must be the record's victim.
    pub victim: Wallet,
    /// Vault holding the stake.
    pub vault: Wallet,
}

/// Accounts for the victim claiming a stake.
#[derive(Clone, Debug)]
pub struct ClaimStake {
    pub program_id: Identity,
    /// Address at which the record is stored.
    pub apology_key: Identity,
    pub apology: Apology,
    /// The signer, who must be the record's victim and receives the stake.
    pub victim: Wallet,
    /// Vault holding the stake.
    pub vault: Wallet,
}

/// Whether `apology` and `vault` are the addresses that the seeds of the
/// record (`offender`, `victim`, `nonce`) derive under `program`.
pub open spec fn accounts_derived(
    program: Seq<u8>,
    apology: Seq<u8>,
    vault: Seq<u8>,
    offender: Seq<u8>,
    victim: Seq<u8>,
    nonce: i64,
) -> bool {
    &&& program_address(apology_seeds(offender, victim, nonce), program) == Some(apology)
    &&& program_address(vault_seeds(apology), program) == Some(vault)
}

/// Whether found addresses, as derived for a record and its vault, are
/// those handed in.
pub open spec fn addresses_match(
    found_apology: Option<Seq<u8>>,
    found_vault: Option<Seq<u8>>,
    apology: Seq<u8>,
    vault: Seq<u8>,
) -> bool {
    found_apology == Some(apology) && found_vault == Some(vault)
}

/// Compares derived addresses with the ones handed in.
pub fn match_addresses(
    found_apology: Option<Identity>,
    found_vault: Option<Identity>,
    apology: &Identity,
    vault: &Identity,
) -> (r: bool)
    ensures
        r == addresses_match(
            crate::address::opt_view(found_apology),
            crate::address::opt_view(found_vault),
            apology@,
            vault@,
        ),
{
    match (found_apology, found_vault) {
        (Some(a), Some(v)) => a.same_as(apology) && v.same_as(vault),
        _ => false,
    }
}

/// Derives the record's and vault's addresses and compares them with the
/// ones handed in.
pub fn check_accounts(
    program: &Identity,
    apology: &Identity,
    vault: &Identity,
    offender: &Identity,
    victim: &Identity,
    nonce: i64,
) -> (r: bool)
    ensures
        r == accounts_derived(program@, apology@, vault@, offender@, victim@, nonce),
{
    let found_apology = apology_address(program, offender, victim, nonce);
    let found_vault = vault_address(program, apology);
    match_addresses(found_apology, found_vault, apology, vault)
}

/// The record that a valid creation stores.
pub open spec fn new_record(
    ctx: InitializeApology,
    now: i64,
    probation_days: u64,
    stake_amount: u64,
    message: String,
    nonce: i64,
    twitter: String,
) -> Apology {
    Apology {
        offender: ctx.offender.key,
        victim: ctx.victim,
        nonce,
        stake_amount,
        probation_end: probation_end_of(now, probation_days) as i64,
        created_at: now,
        status: ApologyStatus::Active,
        message,
        twitter,
    }
}

/// The accounts after a valid creation: the stake has moved into the vault.
pub open spec fn funded(ctx: InitializeApology, stake_amount: u64) -> InitializeApology {
    let (offender, vault) = deposit(ctx.offender.lamports, ctx.vault.lamports, stake_amount);
    InitializeApology {
        offender: Wallet { lamports: offender, ..ctx.offender },
        vault: Wallet { lamports: vault, ..ctx.vault },
        ..ctx
    }
}

/// Opens an apology at time `now`. On success the stake has moved from the
/// offender into the vault, and the new record and its notice are returned.
/// On failure nothing has changed. Offender and vault together hold no more
/// lamports than a `u64` counts, as the ledger's total supply never does.
pub fn initialize_apology(
    ctx: &mut InitializeApology,
    now: i64,
    probation_days: u64,
    stake_amount: u64,
    message: String,
    nonce: i64,
    twitter: String,
) -> (r: Result<(Apology, ApologyCreated), ApologyError>)
    requires
        old(ctx).offender.lamports + old(ctx).vault.lamports <= u64::MAX,
    ensures
        match creation_error(old(ctx).offender.key@, old(ctx).victim@, old(ctx).offender.lamports,
            now, probation_days, stake_amount, message@, twitter@) {
            Some(e) => r == Err::<(Apology, ApologyCreated), ApologyError>(e) && *final(ctx) == *old(ctx),
            None => if accounts_derived(old(ctx).program_id@, old(ctx).apology@, old(ctx).vault.key@,
                old(ctx).offender.key@, old(ctx).victim@, nonce) {
                &&& r is Ok
                &&& r->Ok_0.0 == new_record(*old(ctx), now, probation_days, stake_amount, message, nonce, twitter)
                &&& r->Ok_0.1 == (ApologyCreated {
                    apology_id: old(ctx).apology,
                    offender: old(ctx).offender.key,
                    victim: old(ctx).victim,
                    stake_amount,
                    probation_days,
                    twitter,
                })
                &&& *final(ctx) == funded(*old(ctx), stake_amount)
            } else {
                r == Err::<(Apology, ApologyCreated), ApologyError>(ApologyError::InvalidAccount)
                    && *final(ctx) == *old(ctx)
            },
        },
{
    let probation_end = match validate_apology(
        &ctx.offender.key,
        &ctx.victim,
        ctx.offender.lamports,
        now,
        probation_days,
        stake_amount,
        &message,
        &twitter,
    ) {
        Ok(end) => end,
        Err(e) => {
            return Err(e);
        },
    };
    if !check_accounts(&ctx.program_id, &ctx.apology, &ctx.vault.key, &ctx.offender.key, &ctx.victim, nonce) {
        return Err(ApologyError::InvalidAccount);
    }
    let created = ApologyCreated {
        apology_id: ctx.apology,
        offender: ctx.offender.key,
        victim: ctx.victim,
        stake_amount,
        probation_days,
        twitter: twitter.clone(),
    };
    let record = Apology {
        offender: ctx.offender.key,
        victim: ctx.victim,
        nonce,
        stake_amount,
        probation_end,
        created_at: now,
        status: ApologyStatus::Active,
        message,
        twitter,
    };
    if stake_amount > 0 {
        ctx.offender.lamports = ctx.offender.lamports - stake_amount;
        ctx.vault.lamports = ctx.vault.lamports + stake_amount;
    }
    Ok((record, created))
}

/// Whether the accounts of a release are the record's own: its address and
/// vault derive from its seeds, and the payee is its offender.
pub open spec fn release_accounts_valid(ctx: ReleaseStake) -> bool {
    &&& accounts_derived(ctx.program_id@, ctx.apology_key@, ctx.vault.key@,
        ctx.apology.offender@, ctx.apology.victim@, ctx.apology.nonce)
    &&& ctx.offender.key@ == ctx.apology.offender@
}

/// Whether the accounts of a claim are the record's own.
pub open spec fn claim_accounts_valid(ctx: ClaimStake) -> bool {
    accounts_derived(ctx.program_id@, ctx.apology_key@, ctx.vault.key@,
        ctx.apology.offender@, ctx.apology.victim@, ctx.apology.nonce)
}

/// The accounts after a release: the record is completed and the vault's
/// balance has gone to the offender.
pub open spec fn released(ctx: ReleaseStake) -> ReleaseStake {
    let (offender, vault) = payout(ctx.offender.lamports, ctx.vault.lamports, ctx.apology.stake_amount);
    ReleaseStake {
        apology: resolved(ctx.apology),
        offender: Wallet { lamports: offender, ..ctx.offender },
        vault: Wallet { lamports: vault, ..ctx.vault },
        ..ctx
    }
}

/// The accounts after a claim: the record is completed and the vault's
/// balance has gone to the victim.
pub open spec fn claimed(ctx: ClaimStake) -> ClaimStake {
    let (victim, vault) = payout(ctx.victim.lamports, ctx.vault.lamports, ctx.apology.stake_amount);
    ClaimStake {
        apology: resolved(ctx.apology),
        victim: Wallet { lamports: victim, ..ctx.victim },
        vault: Wallet { lamports: vault, ..ctx.vault },
        ..ctx
    }
}

/// Moves the whole vault balance to `payee`, where a stake was made.
fn pay_out(payee: &mut Wallet, vault: &mut Wallet, stake_amount: u64)
    requires
        old(payee).lamports + old(vault).lamports <= u64::MAX,
    ensures
        (final(payee).lamports, final(vault).lamports) == payout(old(payee).lamports, old(vault).lamports, stake_amount),
        final(payee).key == old(payee).key,
        final(vault).key == old(vault).key,
{
    if stake_amount > 0 {
        payee.lamports = payee.lamports + vault.lamports;
        vault.lamports = 0;
    }
}

/// The victim forgives at time `now`: the vault's balance goes back to the
/// offender and the record is completed. On failure nothing has changed.
/// Offender and vault together hold no more lamports than a `u64` counts.
pub fn release_stake(ctx: &mut ReleaseStake, now: i64) -> (r: Result<ApologyCompleted, ApologyError>)
    requires
        old(ctx).offender.lamports + old(ctx).vault.lamports <= u64::MAX,
    ensures
        match guard_error(old(ctx).apology, now, old(ctx).victim.key@) {
            Some(e) => r == Err::<ApologyCompleted, ApologyError>(e) && *final(ctx) == *old(ctx),
            None => if release_accounts_valid(*old(ctx)) {
                &&& r == Ok::<ApologyCompleted, ApologyError>(ApologyCompleted {
                    apology_id: old(ctx).apology_key,
                    resolution: ApologyResolution::Released,
                })
                &&& *final(ctx) == released(*old(ctx))
            } else {
                r == Err::<ApologyCompleted, ApologyError>(ApologyError::InvalidAccount)
                    && *final(ctx) == *old(ctx)
            },
        },
{
    match check_resolution(&ctx.apology, now, &ctx.victim.key) {
        Ok(()) => {},
        Err(e) => {
            return Err(e);
        },
    }
    if !check_accounts(&ctx.program_id, &ctx.apology_key, &ctx.vault.key, &ctx.apology.offender,
        &ctx.apology.victim, ctx.apology.nonce) || !ctx.offender.key.same_as(&ctx.apology.offender) {
        return Err(ApologyError::InvalidAccount);
    }
    pay_out(&mut ctx.offender, &mut ctx.vault, ctx.apology.stake_amount);
    ctx.apology.status = ApologyStatus::Completed;
    Ok(ApologyCompleted { apology_id: ctx.apology_key, resolution: ApologyResolution::Released })
}

/// The victim claims the stake at time `now`: the vault's balance goes to
/// the victim and the record is completed. On failure nothing has changed.
/// Victim and vault together hold no more lamports than a `u64` counts.
pub fn claim_stake(ctx: &mut ClaimStake, now: i64) -> (r: Result<ApologyCompleted, ApologyError>)
    requires
        old(ctx).victim.lamports + old(ctx).vault.lamports <= u64::MAX,
    ensures
        match guard_error(old(ctx).apology, now, old(ctx).victim.key@) {
            Some(e) => r == Err::<ApologyCompleted, ApologyError>(e) && *final(ctx) == *old(ctx),
            None => if claim_accounts_valid(*old(ctx)) {
                &&& r == Ok::<ApologyCompleted, ApologyError>(ApologyCompleted {
                    apology_id: old(ctx).apology_key,
                    resolution: ApologyResolution::Claimed,
                })
                &&& *final(ctx) == claimed(*old(ctx))
            } else {
                r == Err::<ApologyCompleted, ApologyError>(ApologyError::InvalidAccount)
                    && *final(ctx) == *old(ctx)
            },
        },
{
    match check_resolution(&ctx.apology, now, &ctx.victim.key) {
        Ok(()) => {},
        Err(e) => {
            return Err(e);
        },
    }
    if !check_accounts(&ctx.program_id, &ctx.apology_key, &ctx.vault.key, &ctx.apology.offender,
        &ctx.apology.victim, ctx.apology.nonce) {
        return Err(ApologyError::InvalidAccount);
    }
    pay_out(&mut ctx.victim, &mut ctx.vault, ctx.apology.stake_amount);
    ctx.apology.status = ApologyStatus::Completed;
    Ok(ApologyCompleted { apology_id: ctx.apology_key, resolution: ApologyResolution::Claimed })
}

} // verus!
