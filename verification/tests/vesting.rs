use tokenvest::claim_token::ClaimMode;
use tokenvest::claim_token::token_claiming;
use tokenvest::claim_token::treasury_signer_seeds;
use tokenvest::claim_token::vested_amount;
use tokenvest::error::ErrorMessage;
use tokenvest::state::Address;
use tokenvest::state::EmployeeAccount;
use tokenvest::state::Registry;
use tokenvest::claim_token;
use tokenvest::create_employee_account;
use tokenvest::initialize_vesting_account;

fn addr(id: u64) -> Address {
    Address { id }
}

fn name(s: &str) -> Vec<u8> {
    s.as_bytes().to_vec()
}

const OWNER: u64 = 1;
const BENEFICIARY: u64 = 2;
const MINT: u64 = 3;
const POOL: u64 = 10;
const TREASURY: u64 = 11;

/// A registry with one pool ("acme") and one employee schedule:
/// start 1000, cliff 1000, end 2000, total 1000.
fn setup() -> Registry {
    let mut reg = Registry::new();
    let r = initialize_vesting_account(
        &mut reg,
        addr(OWNER),
        name("acme"),
        addr(MINT),
        addr(POOL),
        addr(TREASURY),
        254,
        255,
    );
    assert!(r.is_ok());
    let r = create_employee_account(
        &mut reg,
        addr(OWNER),
        addr(POOL),
        addr(BENEFICIARY),
        1000,
        2000,
        1000,
        1000,
        253,
    );
    assert!(r.is_ok());
    reg
}

#[test]
fn pool_creation_sets_fields() {
    let reg = setup();
    assert_eq!(reg.pools.len(), 1);
    let p = &reg.pools[0];
    assert_eq!(p.address, addr(POOL));
    assert_eq!(p.owner, addr(OWNER));
    assert_eq!(p.mint, addr(MINT));
    assert_eq!(p.treasury_token_account, addr(TREASURY));
    assert_eq!(p.company_name, name("acme"));
    assert_eq!(p.treasury_bump, 254);
    assert_eq!(p.bump, 255);
    assert_eq!(reg.employees.len(), 1);
    let e = &reg.employees[0];
    assert_eq!(e.beneficiary, addr(BENEFICIARY));
    assert_eq!(e.vesting_account, addr(POOL));
    assert_eq!(e.start_time, 1000);
    assert_eq!(e.end_time, 2000);
    assert_eq!(e.cliff_time, 1000);
    assert_eq!(e.total_amount, 1000);
    assert_eq!(e.total_withdrawn, 0);
    assert_eq!(e.bump, 253);
}

#[test]
fn duplicate_pool_rejected() {
    let mut reg = setup();
    let r = initialize_vesting_account(
        &mut reg,
        addr(7),
        name("acme"),
        addr(8),
        addr(20),
        addr(21),
        1,
        2,
    );
    assert_eq!(r, Err(ErrorMessage::DuplicatePool));
    // The original pool is untouched.
    assert_eq!(reg.pools.len(), 1);
    assert_eq!(reg.pools[0].owner, addr(OWNER));
    assert_eq!(reg.pools[0].company_name, name("acme"));
}

#[test]
fn second_company_pool_allowed() {
    let mut reg = setup();
    let r = initialize_vesting_account(
        &mut reg,
        addr(7),
        name("globex"),
        addr(MINT),
        addr(20),
        addr(21),
        1,
        2,
    );
    assert!(r.is_ok());
    assert_eq!(reg.pools.len(), 2);
}

#[test]
fn non_authority_cannot_create_schedule() {
    let mut reg = setup();
    let r = create_employee_account(
        &mut reg,
        addr(99),  // not the pool's owner
        addr(POOL),
        addr(42),
        0,
        10,
        0,
        100,
        1,
    );
    assert_eq!(r, Err(ErrorMessage::NotAuthorized));
    // No schedule record was created.
    assert_eq!(reg.employees.len(), 1);
}

#[test]
fn duplicate_schedule_rejected() {
    let mut reg = setup();
    let r = create_employee_account(
        &mut reg,
        addr(OWNER),
        addr(POOL),
        addr(BENEFICIARY),
        0,
        10,
        0,
        100,
        1,
    );
    assert_eq!(r, Err(ErrorMessage::ScheduleAlreadyExists));
    assert_eq!(reg.employees.len(), 1);
    assert_eq!(reg.employees[0].total_amount, 1000);
}

#[test]
fn claim_before_cliff_fails() {
    let mut reg = setup();
    let company = name("acme");
    let r = claim_token(&mut reg, addr(BENEFICIARY), &company, 999, ClaimMode::Accumulate);
    assert_eq!(r.unwrap_err(), ErrorMessage::ClaimNotAvailableYet);
    // The withdrawal counter is unchanged.
    assert_eq!(reg.employees[0].total_withdrawn, 0);
}

#[test]
fn claim_midway_transfers_linear_share() {
    let mut reg = setup();
    let company = name("acme");
    let ti = claim_token(&mut reg, addr(BENEFICIARY), &company, 1500, ClaimMode::Accumulate)
        .unwrap();
    assert_eq!(ti.amount, 500);
    assert_eq!(ti.from, addr(TREASURY));
    assert_eq!(ti.to_owner, addr(BENEFICIARY));
    assert_eq!(ti.mint, addr(MINT));
    assert_eq!(ti.signer_seeds.len(), 3);
    assert_eq!(ti.signer_seeds[0], name("vesting_treasury"));
    assert_eq!(ti.signer_seeds[1], name("acme"));
    assert_eq!(ti.signer_seeds[2], vec![254]);
    assert_eq!(reg.employees[0].total_withdrawn, 500);
}

#[test]
fn claim_after_end_transfers_remainder() {
    let mut reg = setup();
    let company = name("acme");
    let first = claim_token(&mut reg, addr(BENEFICIARY), &company, 1500, ClaimMode::Accumulate)
        .unwrap();
    assert_eq!(first.amount, 500);
    // Far past the end the entitlement is capped at the total.
    let second = claim_token(&mut reg, addr(BENEFICIARY), &company, 2500, ClaimMode::Accumulate)
        .unwrap();
    assert_eq!(second.amount, 1000 - 500);
    assert_eq!(reg.employees[0].total_withdrawn, 1000);
}

#[test]
fn second_claim_same_instant_yields_nothing() {
    let mut reg = setup();
    let company = name("acme");
    let first = claim_token(&mut reg, addr(BENEFICIARY), &company, 1500, ClaimMode::Overwrite)
        .unwrap();
    assert_eq!(first.amount, 500);
    let second = claim_token(&mut reg, addr(BENEFICIARY), &company, 1500, ClaimMode::Overwrite);
    assert_eq!(second.unwrap_err(), ErrorMessage::NothingToClaim);
    assert_eq!(reg.employees[0].total_withdrawn, 500);
}

#[test]
fn overwrite_mode_forgets_withdrawal_history() {
    // The counter stores only the last claim's amount in Overwrite mode, so
    // after a partial and then a full claim a third claim succeeds again:
    // the mode that keeps the claim-once behavior is Accumulate.
    let mut reg = setup();
    let company = name("acme");
    let first = claim_token(&mut reg, addr(BENEFICIARY), &company, 1500, ClaimMode::Overwrite)
        .unwrap();
    assert_eq!(first.amount, 500);
    let second = claim_token(&mut reg, addr(BENEFICIARY), &company, 2500, ClaimMode::Overwrite)
        .unwrap();
    assert_eq!(second.amount, 500);
    assert_eq!(reg.employees[0].total_withdrawn, 500);
    let third = claim_token(&mut reg, addr(BENEFICIARY), &company, 2500, ClaimMode::Overwrite)
        .unwrap();
    assert_eq!(third.amount, 500);
}

#[test]
fn accumulate_mode_exhausts_entitlement() {
    let mut reg = setup();
    let company = name("acme");
    claim_token(&mut reg, addr(BENEFICIARY), &company, 1500, ClaimMode::Accumulate).unwrap();
    claim_token(&mut reg, addr(BENEFICIARY), &company, 2500, ClaimMode::Accumulate).unwrap();
    let again = claim_token(&mut reg, addr(BENEFICIARY), &company, 9999, ClaimMode::Accumulate);
    assert_eq!(again.unwrap_err(), ErrorMessage::NothingToClaim);
    assert_eq!(reg.employees[0].total_withdrawn, 1000);
}

#[test]
fn degenerate_schedule_fails_regardless_of_now() {
    let mut reg = Registry::new();
    initialize_vesting_account(
        &mut reg,
        addr(OWNER),
        name("acme"),
        addr(MINT),
        addr(POOL),
        addr(TREASURY),
        254,
        255,
    )
    .unwrap();
    create_employee_account(
        &mut reg,
        addr(OWNER),
        addr(POOL),
        addr(BENEFICIARY),
        1000,
        1000,
        1000,
        1000,
        1,
    )
    .unwrap();
    let company = name("acme");
    for now in [1000, 1500, 5000, i64::MAX] {
        let r = claim_token(&mut reg, addr(BENEFICIARY), &company, now, ClaimMode::Accumulate);
        assert_eq!(r.unwrap_err(), ErrorMessage::InvalidVestingPeriod);
    }
}

#[test]
fn zero_total_always_nothing_to_claim() {
    let mut reg = Registry::new();
    initialize_vesting_account(
        &mut reg,
        addr(OWNER),
        name("acme"),
        addr(MINT),
        addr(POOL),
        addr(TREASURY),
        254,
        255,
    )
    .unwrap();
    create_employee_account(
        &mut reg,
        addr(OWNER),
        addr(POOL),
        addr(BENEFICIARY),
        1000,
        2000,
        1000,
        0,
        1,
    )
    .unwrap();
    let company = name("acme");
    for now in [1000, 1500, 2000, 100_000] {
        let r = claim_token(&mut reg, addr(BENEFICIARY), &company, now, ClaimMode::Accumulate);
        assert_eq!(r.unwrap_err(), ErrorMessage::NothingToClaim);
        assert_eq!(reg.employees[0].total_withdrawn, 0);
    }
}

#[test]
fn vested_amount_is_monotone_and_capped() {
    let e = EmployeeAccount {
        beneficiary: addr(BENEFICIARY),
        start_time: 1000,
        end_time: 2000,
        cliff_time: 1000,
        total_amount: 777,
        total_withdrawn: 0,
        vesting_account: addr(POOL),
        bump: 1,
    };
    let mut previous = 0;
    for now in [0, 999, 1000, 1001, 1250, 1500, 1750, 1999, 2000, 2001, i64::MAX] {
        let v = vested_amount(&e, now);
        assert!(v <= 777);
        assert!(v >= previous);
        previous = v;
    }
    assert_eq!(vested_amount(&e, 2000), 777);
    assert_eq!(vested_amount(&e, i64::MAX), 777);
}

#[test]
fn vested_amount_rounds_down() {
    let e = EmployeeAccount {
        beneficiary: addr(BENEFICIARY),
        start_time: 0,
        end_time: 3,
        cliff_time: 0,
        total_amount: 1000,
        total_withdrawn: 0,
        vesting_account: addr(POOL),
        bump: 1,
    };
    assert_eq!(vested_amount(&e, 1), 333);
    assert_eq!(vested_amount(&e, 2), 666);
    assert_eq!(vested_amount(&e, 3), 1000);
}

#[test]
fn vested_amount_largest_allocation() {
    // The widened intermediate product keeps the linear formula exact even
    // at the largest possible allocation.
    let e = EmployeeAccount {
        beneficiary: addr(BENEFICIARY),
        start_time: 1000,
        end_time: 2000,
        cliff_time: 1000,
        total_amount: u64::MAX,
        total_withdrawn: 0,
        vesting_account: addr(POOL),
        bump: 1,
    };
    assert_eq!(vested_amount(&e, 1500), u64::MAX / 2);
    assert_eq!(vested_amount(&e, 2000), u64::MAX);
}

#[test]
fn vested_amount_before_start_is_zero() {
    let e = EmployeeAccount {
        beneficiary: addr(BENEFICIARY),
        start_time: 1000,
        end_time: 2000,
        cliff_time: 500,  // cliff before start: claimable is still zero
        total_amount: 1000,
        total_withdrawn: 0,
        vesting_account: addr(POOL),
        bump: 1,
    };
    assert_eq!(vested_amount(&e, 700), 0);
    let mut reg = setup();
    reg.employees[0] = e;
    let company = name("acme");
    let r = claim_token(&mut reg, addr(BENEFICIARY), &company, 700, ClaimMode::Accumulate);
    assert_eq!(r.unwrap_err(), ErrorMessage::NothingToClaim);
}

#[test]
fn direct_claim_by_pool_address() {
    let mut reg = setup();
    let ti = token_claiming(&mut reg, addr(BENEFICIARY), addr(POOL), 1750, ClaimMode::Accumulate)
        .unwrap();
    assert_eq!(ti.amount, 750);
    assert_eq!(reg.employees[0].total_withdrawn, 750);
}

#[test]
fn signer_seeds_reproduce_derivation_material() {
    let seeds = treasury_signer_seeds(&name("acme"), 254);
    assert_eq!(seeds.len(), 3);
    assert_eq!(seeds[0], b"vesting_treasury".to_vec());
    assert_eq!(seeds[1], b"acme".to_vec());
    assert_eq!(seeds[2], vec![254u8]);
}

#[test]
fn same_beneficiary_in_two_pools_claims_independently() {
    let mut reg = setup();
    initialize_vesting_account(
        &mut reg,
        addr(OWNER),
        name("globex"),
        addr(MINT),
        addr(20),
        addr(21),
        200,
        201,
    )
    .unwrap();
    create_employee_account(
        &mut reg,
        addr(OWNER),
        addr(20),
        addr(BENEFICIARY),
        1000,
        2000,
        1000,
        400,
        1,
    )
    .unwrap();
    let first = claim_token(&mut reg, addr(BENEFICIARY), &name("acme"), 1500, ClaimMode::Accumulate)
        .unwrap();
    assert_eq!(first.amount, 500);
    let second =
        claim_token(&mut reg, addr(BENEFICIARY), &name("globex"), 1500, ClaimMode::Accumulate)
            .unwrap();
    assert_eq!(second.amount, 200);
    assert_eq!(second.from, addr(21));
    assert_eq!(second.signer_seeds[1], name("globex"));
    assert_eq!(second.signer_seeds[2], vec![200u8]);
    assert_eq!(reg.employees[0].total_withdrawn, 500);
    assert_eq!(reg.employees[1].total_withdrawn, 200);
}

#[test]
fn empty_registry_has_nothing() {
    let reg = Registry::new();
    assert_eq!(reg.pools.len(), 0);
    assert_eq!(reg.employees.len(), 0);
    assert!(reg.find_pool_by_name(&name("acme")).is_none());
    assert!(reg.find_pool_by_address(addr(POOL)).is_none());
    assert!(reg.find_employee(addr(BENEFICIARY), addr(POOL)).is_none());
}
