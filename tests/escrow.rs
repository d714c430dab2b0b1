use apologystake::{
    apology_address, check_accounts, check_resolution, match_addresses, claim_stake, initialize_apology, nonce_seed, release_stake,
    validate_apology, vault_address, Apology, ApologyError, ApologyResolution, ApologyStatus,
    ClaimStake, Identity, InitializeApology, ReleaseStake, Wallet,
};

const DAY: i64 = 86400;

fn program() -> Identity {
    Identity::new([7u8; 32])
}

fn offender() -> Identity {
    Identity::new([1u8; 32])
}

fn victim() -> Identity {
    Identity::new([2u8; 32])
}

/// Accounts for a creation whose addresses are the derived ones.
fn init_ctx(offender_key: Identity, victim_key: Identity, nonce: i64, lamports: u64) -> InitializeApology {
    let apology = apology_address(&program(), &offender_key, &victim_key, nonce).unwrap();
    let vault = vault_address(&program(), &apology).unwrap();
    InitializeApology {
        program_id: program(),
        apology,
        offender: Wallet { key: offender_key, lamports },
        victim: victim_key,
        vault: Wallet { key: vault, lamports: 0 },
    }
}

fn create(stake: u64, nonce: i64, lamports: u64) -> (InitializeApology, Apology) {
    let mut ctx = init_ctx(offender(), victim(), nonce, lamports);
    let (record, _) = initialize_apology(
        &mut ctx,
        0,
        1,
        stake,
        "sorry".to_string(),
        nonce,
        "alice".to_string(),
    )
    .unwrap();
    (ctx, record)
}

fn release_ctx(init: &InitializeApology, record: &Apology, caller: Identity) -> ReleaseStake {
    ReleaseStake {
        program_id: init.program_id,
        apology_key: init.apology,
        apology: record.clone(),
        offender: init.offender,
        victim: Wallet { key: caller, lamports: 0 },
        vault: init.vault,
    }
}

fn claim_ctx(init: &InitializeApology, record: &Apology, caller: Identity) -> ClaimStake {
    ClaimStake {
        program_id: init.program_id,
        apology_key: init.apology,
        apology: record.clone(),
        victim: Wallet { key: caller, lamports: 0 },
        vault: init.vault,
    }
}

#[test]
fn scenario_release_after_probation() {
    let mut ctx = init_ctx(offender(), victim(), 7, 5000);
    let (record, created) = initialize_apology(
        &mut ctx,
        0,
        1,
        1000,
        "sorry".to_string(),
        7,
        "alice".to_string(),
    )
    .unwrap();
    assert_eq!(record.probation_end, 86400);
    assert_eq!(record.created_at, 0);
    assert_eq!(record.status, ApologyStatus::Active);
    assert_eq!(record.message, "sorry");
    assert_eq!(record.twitter, "alice");
    assert_eq!(ctx.vault.lamports, 1000);
    assert_eq!(ctx.offender.lamports, 4000);
    assert_eq!(created.stake_amount, 1000);
    assert_eq!(created.probation_days, 1);
    assert_eq!(created.twitter, "alice");
    assert_eq!(created.apology_id.bytes, ctx.apology.bytes);

    let mut rel = release_ctx(&ctx, &record, victim());
    assert_eq!(release_stake(&mut rel, 1000).unwrap_err(), ApologyError::ProbationNotEnded);
    assert_eq!(rel.vault.lamports, 1000);

    let done = release_stake(&mut rel, 86400).unwrap();
    assert_eq!(done.resolution, ApologyResolution::Released);
    assert_eq!(done.apology_id.bytes, ctx.apology.bytes);
    assert_eq!(rel.offender.lamports, 5000);
    assert_eq!(rel.vault.lamports, 0);
    assert_eq!(rel.apology.status, ApologyStatus::Completed);

    assert_eq!(release_stake(&mut rel, 90000).unwrap_err(), ApologyError::InvalidStatus);
    let mut cl = claim_ctx(&ctx, &rel.apology, victim());
    assert_eq!(claim_stake(&mut cl, 90000).unwrap_err(), ApologyError::InvalidStatus);
    assert_eq!(cl.victim.lamports, 0);
}

#[test]
fn claim_pays_the_victim_once() {
    let (ctx, record) = create(300, 1, 1000);
    let mut cl = claim_ctx(&ctx, &record, victim());
    let done = claim_stake(&mut cl, DAY).unwrap();
    assert_eq!(done.resolution, ApologyResolution::Claimed);
    assert_eq!(cl.victim.lamports, 300);
    assert_eq!(cl.vault.lamports, 0);
    assert_eq!(cl.apology.status, ApologyStatus::Completed);
    assert_eq!(claim_stake(&mut cl, DAY).unwrap_err(), ApologyError::InvalidStatus);
    let mut rel = release_ctx(&ctx, &cl.apology, victim());
    assert_eq!(release_stake(&mut rel, DAY).unwrap_err(), ApologyError::InvalidStatus);
}

#[test]
fn conservation_over_release_and_claim() {
    let (ctx, record) = create(250, 2, 1000);
    let before: u64 = 1000;
    let mut rel = release_ctx(&ctx, &record, victim());
    release_stake(&mut rel, DAY).unwrap();
    assert_eq!(rel.offender.lamports + rel.victim.lamports + rel.vault.lamports, before);
    let mut cl = claim_ctx(&ctx, &record, victim());
    claim_stake(&mut cl, DAY).unwrap();
    assert_eq!(ctx.offender.lamports + cl.victim.lamports + cl.vault.lamports, before);
}

#[test]
fn timelock_holds_for_any_caller() {
    let (ctx, record) = create(100, 3, 1000);
    for caller in [victim(), offender(), Identity::new([9u8; 32])] {
        let mut rel = release_ctx(&ctx, &record, caller);
        assert_eq!(release_stake(&mut rel, DAY - 1).unwrap_err(), ApologyError::ProbationNotEnded);
        let mut cl = claim_ctx(&ctx, &record, caller);
        assert_eq!(claim_stake(&mut cl, 0).unwrap_err(), ApologyError::ProbationNotEnded);
        assert_eq!(cl.vault.lamports, 100);
    }
}

#[test]
fn only_the_victim_resolves() {
    let (ctx, record) = create(100, 4, 1000);
    let mut rel = release_ctx(&ctx, &record, offender());
    assert_eq!(release_stake(&mut rel, 2 * DAY).unwrap_err(), ApologyError::UnauthorizedVictim);
    let mut cl = claim_ctx(&ctx, &record, Identity::new([9u8; 32]));
    assert_eq!(claim_stake(&mut cl, 2 * DAY).unwrap_err(), ApologyError::UnauthorizedVictim);
    assert_eq!(cl.apology.status, ApologyStatus::Active);
    assert_eq!(cl.vault.lamports, 100);
}

#[test]
fn self_apology_is_refused() {
    let mut ctx = init_ctx(offender(), offender(), 5, 1000);
    let r = initialize_apology(&mut ctx, 0, 1, 10, "sorry".to_string(), 5, "me".to_string());
    assert_eq!(r.unwrap_err(), ApologyError::InvalidVictim);
    assert_eq!(ctx.offender.lamports, 1000);
    assert_eq!(ctx.vault.lamports, 0);
}

#[test]
fn creation_errors() {
    let cases: [(u64, u64, &str, &str, ApologyError); 6] = [
        (0, 10, "sorry", "bob", ApologyError::InvalidProbationDays),
        (1, 10, "", "bob", ApologyError::EmptyMessage),
        (1, 2000, "sorry", "bob", ApologyError::InsufficientFunds),
        (1, 0, "sorry", "bob", ApologyError::InvalidStakeAmount),
        (1, 10, &"x".repeat(501), "bob", ApologyError::MessageTooLong),
        (1, 10, "sorry", &"h".repeat(51), ApologyError::HandleTooLong),
    ];
    for (days, stake, message, handle, expected) in cases {
        let mut ctx = init_ctx(offender(), victim(), 6, 1000);
        let r = initialize_apology(&mut ctx, 0, days, stake, message.to_string(), 6, handle.to_string());
        assert_eq!(r.unwrap_err(), expected);
        assert_eq!(ctx.offender.lamports, 1000);
        assert_eq!(ctx.vault.lamports, 0);
    }
}

#[test]
fn lengths_at_the_limits_are_accepted() {
    let mut ctx = init_ctx(offender(), victim(), 8, 1000);
    let r = initialize_apology(&mut ctx, 0, 1, 1000, "x".repeat(500), 8, "h".repeat(50));
    assert!(r.is_ok());
    assert_eq!(ctx.offender.lamports, 0);
    assert_eq!(ctx.vault.lamports, 1000);
}

#[test]
fn probation_past_the_last_second_is_refused() {
    assert_eq!(
        validate_apology(&offender(), &victim(), 100, 0, u64::MAX, 1, &"s".to_string(), &"h".to_string()),
        Err(ApologyError::InvalidProbationDays)
    );
    assert_eq!(
        validate_apology(&offender(), &victim(), 100, i64::MAX - 100, 1, 1, &"s".to_string(), &"h".to_string()),
        Err(ApologyError::InvalidProbationDays)
    );
    assert_eq!(
        validate_apology(&offender(), &victim(), 100, 10, 3, 1, &"s".to_string(), &"h".to_string()),
        Ok(10 + 3 * DAY)
    );
}

#[test]
fn zero_stake_record_moves_nothing() {
    let (ctx, mut record) = create(100, 9, 1000);
    record.stake_amount = 0;
    let mut rel = release_ctx(&ctx, &record, victim());
    release_stake(&mut rel, DAY).unwrap();
    assert_eq!(rel.apology.status, ApologyStatus::Completed);
    assert_eq!(rel.offender.lamports, 900);
    assert_eq!(rel.vault.lamports, 100);
    let mut cl = claim_ctx(&ctx, &record, victim());
    claim_stake(&mut cl, DAY).unwrap();
    assert_eq!(cl.apology.status, ApologyStatus::Completed);
    assert_eq!(cl.victim.lamports, 0);
    assert_eq!(cl.vault.lamports, 100);
}

#[test]
fn foreign_accounts_are_refused() {
    let mut ctx = init_ctx(offender(), victim(), 10, 1000);
    ctx.vault.key = Identity::new([3u8; 32]);
    let r = initialize_apology(&mut ctx, 0, 1, 10, "sorry".to_string(), 10, "bob".to_string());
    assert_eq!(r.unwrap_err(), ApologyError::InvalidAccount);
    assert_eq!(ctx.offender.lamports, 1000);

    let (ctx, record) = create(100, 11, 1000);
    let mut rel = release_ctx(&ctx, &record, victim());
    rel.offender.key = Identity::new([9u8; 32]);
    assert_eq!(release_stake(&mut rel, DAY).unwrap_err(), ApologyError::InvalidAccount);
    assert_eq!(rel.vault.lamports, 100);
    let mut cl = claim_ctx(&ctx, &record, victim());
    cl.apology_key = Identity::new([4u8; 32]);
    assert_eq!(claim_stake(&mut cl, DAY).unwrap_err(), ApologyError::InvalidAccount);
    assert_eq!(cl.vault.lamports, 100);
}

#[test]
fn derived_addresses() {
    let a = apology_address(&program(), &offender(), &victim(), 7).unwrap();
    let b = apology_address(&program(), &offender(), &victim(), 7).unwrap();
    let c = apology_address(&program(), &offender(), &victim(), 8).unwrap();
    let d = apology_address(&program(), &victim(), &offender(), 7).unwrap();
    assert_eq!(a.bytes, b.bytes);
    assert_ne!(a.bytes, c.bytes);
    assert_ne!(a.bytes, d.bytes);
    assert_ne!(a.bytes, offender().bytes);
    let v = vault_address(&program(), &a).unwrap();
    assert_ne!(v.bytes, a.bytes);
    assert_eq!(v.bytes, vault_address(&program(), &a).unwrap().bytes);
    assert!(check_accounts(&program(), &a, &v, &offender(), &victim(), 7));
    assert!(!check_accounts(&program(), &a, &v, &offender(), &victim(), 8));
}

#[test]
fn nonce_seed_is_little_endian() {
    assert_eq!(nonce_seed(7), vec![7, 0, 0, 0, 0, 0, 0, 0]);
    assert_eq!(nonce_seed(0x0102), vec![2, 1, 0, 0, 0, 0, 0, 0]);
    assert_eq!(nonce_seed(-1), vec![255; 8]);
    assert_eq!(nonce_seed(-2).to_vec(), (-2i64).to_le_bytes().to_vec());
}

#[test]
fn guard_checks_status_then_time_then_caller() {
    let (_, mut record) = create(100, 12, 1000);
    let stranger = Identity::new([9u8; 32]);
    assert_eq!(check_resolution(&record, 0, &stranger), Err(ApologyError::ProbationNotEnded));
    assert_eq!(check_resolution(&record, DAY, &stranger), Err(ApologyError::UnauthorizedVictim));
    assert_eq!(check_resolution(&record, DAY, &victim()), Ok(()));
    record.status = ApologyStatus::Completed;
    assert_eq!(check_resolution(&record, 0, &stranger), Err(ApologyError::InvalidStatus));
    assert_eq!(check_resolution(&record, DAY, &victim()), Err(ApologyError::InvalidStatus));
}

#[test]
fn addresses_must_all_be_found_and_equal() {
    let a = Identity::new([5u8; 32]);
    let v = Identity::new([6u8; 32]);
    assert!(match_addresses(Some(a), Some(v), &a, &v));
    assert!(!match_addresses(None, Some(v), &a, &v));
    assert!(!match_addresses(Some(a), None, &a, &v));
    assert!(!match_addresses(Some(v), Some(v), &a, &v));
    assert!(!match_addresses(Some(a), Some(a), &a, &v));
}

#[test]
fn listed_checks_come_before_the_end_of_probation() {
    let m = "sorry".to_string();
    let h = "bob".to_string();
    let empty = String::new();
    assert_eq!(
        validate_apology(&offender(), &victim(), 100, 0, u64::MAX, 1, &empty, &h),
        Err(ApologyError::EmptyMessage)
    );
    assert_eq!(
        validate_apology(&offender(), &offender(), 100, 0, u64::MAX, 1, &m, &h),
        Err(ApologyError::InvalidVictim)
    );
    assert_eq!(
        validate_apology(&offender(), &victim(), 100, 0, u64::MAX, 0, &m, &h),
        Err(ApologyError::InvalidStakeAmount)
    );
    assert_eq!(
        validate_apology(&offender(), &victim(), 100, 0, u64::MAX, 101, &m, &h),
        Err(ApologyError::InsufficientFunds)
    );
    let mut ctx = init_ctx(offender(), victim(), 13, 1000);
    let r = initialize_apology(&mut ctx, 0, u64::MAX, 10, String::new(), 13, "bob".to_string());
    assert_eq!(r.unwrap_err(), ApologyError::EmptyMessage);
    assert_eq!(ctx.offender.lamports, 1000);
}

#[test]
fn long_probation_from_an_early_time_is_accepted() {
    let days: u64 = (i64::MAX as u64) / 86400 + 1;
    let now: i64 = -(DAY * 1000);
    let expected = (now as i128 + days as i128 * 86400) as i64;
    assert_eq!(
        validate_apology(&offender(), &victim(), 100, now, days, 1, &"s".to_string(), &"h".to_string()),
        Ok(expected)
    );
}
