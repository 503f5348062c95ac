//! A token-vesting ledger.
//!
//! A company authority registers a vesting pool backed by a treasury of a
//! fungible asset, creates one linear-vesting schedule per employee, and each
//! employee later claims the portion of their allocation that has vested.
//! The host ledger (account storage, clock reads, address derivation, and
//! the asset-transfer primitive) lives outside this crate; the crate holds
//! the vesting accounting, the claim decision logic, and the signer-seed
//! material that authorizes treasury transfers, all with verified contracts.

pub mod claim_token;
pub mod error;
pub mod make_employee;
pub mod make_vest;
pub mod state;

use vstd::prelude::*;

use crate::claim_token::ClaimMode;
use crate::claim_token::spec_claim;
use crate::claim_token::spec_after_claim;
use crate::claim_token::spec_treasury_seed_tag;
use crate::error::ErrorMessage;
use crate::state::Address;
use crate::state::Registry;
use crate::state::TransferInstruction;

verus! {

/// Registers a vesting pool for `company_name`, exactly as
/// `make_vest::create_vesting_account` does.
pub fn initialize_vesting_account(
    registry: &mut Registry,
    signer: Address,
    company_name: Vec<u8>,
    mint: Address,
    pool_address: Address,
    treasury_token_account: Address,
    treasury_bump: u8,
    bump: u8,
) -> (result: Result<(), ErrorMessage>)
    requires
        old(registry).wf(),
        company_name@.len() <= 50,
    ensures
        final(registry).wf(),
        result == crate::make_vest::spec_create_pool_result(
            *old(registry),
            company_name@,
            pool_address,
        ),
        result is Err ==> *final(registry) == *old(registry),
        result is Ok ==> {
            &&& final(registry).employees@ == old(registry).employees@
            &&& final(registry).pools@.len() == old(registry).pools@.len() + 1
            &&& forall|i: int|
                0 <= i < old(registry).pools@.len() ==> final(registry).pools@[i]
                    == old(registry).pools@[i]
            &&& ({
                let p = final(registry).pools@[old(registry).pools@.len() as int];
                &&& p.address == pool_address
                &&& p.owner == signer
                &&& p.mint == mint
                &&& p.treasury_token_account == treasury_token_account
                &&& p.company_name@ == company_name@
                &&& p.treasury_bump == treasury_bump
                &&& p.bump == bump
            })
        },
{
    crate::make_vest::create_vesting_account(
        registry,
        signer,
        company_name,
        mint,
        pool_address,
        treasury_token_account,
        treasury_bump,
        bump,
    )
}

/// Creates an employee's vesting schedule, exactly as
/// `make_employee::create_employee` does.
pub fn create_employee_account(
    registry: &mut Registry,
    signer: Address,
    vesting_account: Address,
    beneficiary: Address,
    start_time: i64,
    end_time: i64,
    cliff_time: i64,
    total_amount: u64,
    bump: u8,
) -> (result: Result<(), ErrorMessage>)
    requires
        old(registry).wf(),
        old(registry).has_pool_at(vesting_account),
    ensures
        final(registry).wf(),
        result == crate::make_employee::spec_create_employee_result(
            *old(registry),
            signer,
            vesting_account,
            beneficiary,
        ),
        result is Err ==> *final(registry) == *old(registry),
        result is Ok ==> {
            &&& final(registry).pools@ == old(registry).pools@
            &&& final(registry).employees@ == old(registry).employees@.push(
                (crate::state::EmployeeAccount {
                    beneficiary,
                    start_time,
                    end_time,
                    cliff_time,
                    total_amount,
                    total_withdrawn: 0,
                    vesting_account,
                    bump,
                }),
            )
        },
{
    crate::make_employee::create_employee(
        registry,
        signer,
        vesting_account,
        beneficiary,
        start_time,
        end_time,
        cliff_time,
        total_amount,
        bump,
    )
}

/// Claims for `beneficiary` from the pool registered under `company_name`:
/// resolves the pool by name and runs `claim_token::token_claiming` on it.
pub fn claim_token(
    registry: &mut Registry,
    beneficiary: Address,
    company_name: &Vec<u8>,
    now: i64,
    mode: ClaimMode,
) -> (result: Result<TransferInstruction, ErrorMessage>)
    requires
        old(registry).wf(),
        old(registry).has_pool_named(company_name@),
        old(registry).has_schedule_for(
            beneficiary,
            old(registry).pool_named(company_name@).address,
        ),
    ensures
        final(registry).wf(),
        final(registry).pools@ == old(registry).pools@,
        ({
            let pool = old(registry).pool_named(company_name@);
            let e = old(registry).schedule_of(beneficiary, pool.address);
            match result {
                Err(er) => {
                    &&& spec_claim(e, now as int) == Err::<int, ErrorMessage>(er)
                    &&& *final(registry) == *old(registry)
                },
                Ok(ti) => {
                    &&& spec_claim(e, now as int) == Ok::<int, ErrorMessage>(ti.amount as int)
                    &&& ti.from == pool.treasury_token_account
                    &&& ti.to_owner == beneficiary
                    &&& ti.mint == pool.mint
                    &&& ti.signer_seeds@.len() == 3
                    &&& ti.signer_seeds@[0]@ == spec_treasury_seed_tag()
                    &&& ti.signer_seeds@[1]@ == pool.company_name@
                    &&& ti.signer_seeds@[2]@ == seq![pool.treasury_bump]
                    &&& final(registry).employees@ == old(registry).employees@.update(
                        old(registry).employee_index_for(beneficiary, pool.address),
                        spec_after_claim(e, ti.amount as int, mode),
                    )
                },
            }
        }),
{
    let pi = registry.find_pool_by_name(company_name).unwrap();
    let vesting_account = registry.pools[pi].address;
    proof {
        let ci = old(registry).pool_index_named(company_name@);
        assert(0 <= ci < old(registry).pools@.len() && old(registry).pools@[ci].company_name@
            == company_name@);
        assert(ci == pi as int);
        assert(old(registry).has_pool_at(vesting_account));
        let k = old(registry).pool_index_at(vesting_account);
        assert(0 <= k < old(registry).pools@.len() && old(registry).pools@[k].address
            == vesting_account);
        assert(k == pi as int);
    }
    crate::claim_token::token_claiming(registry, beneficiary, vesting_account, now, mode)
}

} // verus!
