//! Pool registration: one vesting pool per company name.

use vstd::prelude::*;

use crate::error::ErrorMessage;
use crate::state::Address;
use crate::state::Registry;
use crate::state::VestingAccount;

verus! {

/// The decision of a pool registration: it succeeds exactly when neither the
/// company name nor the derived pool address is taken yet.
pub open spec fn spec_create_pool_result(
    r: Registry,
    company_name: Seq<u8>,
    pool_address: Address,
) -> Result<(), ErrorMessage> {
    if r.has_pool_named(company_name) || r.has_pool_at(pool_address) {
        Err(ErrorMessage::DuplicatePool)
    } else {
        Ok(())
    }
}

/// Registers a vesting pool for `company_name`.
///
/// `signer` becomes the pool's authority; `pool_address`, the treasury
/// address and the two derivation proofs come from the host's address
/// derivation, which the caller performs before storing the record. No
/// balance is required at creation; deposits go directly to the treasury
/// through the host's transfer primitive. Fails with `DuplicatePool`, and
/// changes nothing, when the name (or the address derived from it) is
/// already registered.
pub fn create_vesting_account(
    registry: &mut Registry,
    signer: Address,
    company_name: Vec<u8>,
    mint: Address,
    pool_address: Address,
    treasury_token_account: Address,
    treasury_bump: u8,
    bump: u8,
) -> (result: Result<(), ErrorMessage>)
    requires
        old(registry).wf(),
        company_name@.len() <= 50,
    ensures
        final(registry).wf(),
        result == spec_create_pool_result(*old(registry), company_name@, pool_address),
        result is Err ==> *final(registry) == *old(registry),
        result is Ok ==> {
            &&& final(registry).employees@ == old(registry).employees@
            &&& final(registry).pools@.len() == old(registry).pools@.len() + 1
            &&& forall|i: int|
                0 <= i < old(registry).pools@.len() ==> final(registry).pools@[i]
                    == old(registry).pools@[i]
            &&& ({
                let p = final(registry).pools@[old(registry).pools@.len() as int];
                &&& p.address == pool_address
                &&& p.owner == signer
                &&& p.mint == mint
                &&& p.treasury_token_account == treasury_token_account
                &&& p.company_name@ == company_name@
                &&& p.treasury_bump == treasury_bump
                &&& p.bump == bump
            })
        },
{
    if registry.find_pool_by_name(&company_name).is_some() {
        return Err(ErrorMessage::DuplicatePool);
    }
    if registry.find_pool_by_address(pool_address).is_some() {
        return Err(ErrorMessage::DuplicatePool);
    }
    let pool = VestingAccount {
        address: pool_address,
        owner: signer,
        mint,
        treasury_token_account,
        company_name,
        treasury_bump,
        bump,
    };
    registry.pools.push(pool);
    proof {
        let upd = final(registry).pools@;
        let olde = old(registry).pools@;
        assert forall|i: int, j: int| 0 <= i < j < upd.len() implies upd[i].company_name@
            != upd[j].company_name@ && upd[i].address != upd[j].address by {
            if j < olde.len() {
                assert(upd[i] == olde[i] && upd[j] == olde[j]);
            } else {
                assert(upd[i] == olde[i]);
                assert(!old(registry).has_pool_named(upd[j].company_name@));
                assert(!old(registry).has_pool_at(upd[j].address));
            }
        }
        let updreg = *final(registry);
        assert forall|i: int| 0 <= i < updreg.employees@.len() implies updreg.has_pool_at(
            updreg.employees@[i].vesting_account,
        ) by {
            let a = old(registry).employees@[i].vesting_account;
            assert(old(registry).has_pool_at(a));
            let w = choose|k: int|
                0 <= k < olde.len() && olde[k].address == a;
            assert(upd[w].address == a);
        }
        assert(final(registry).wf());
    }
    Ok(())
}

} // verus!
