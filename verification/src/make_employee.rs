//! Schedule registration: one linear-vesting schedule per (beneficiary,
//! pool) pair, created only by the pool's authority.

use vstd::prelude::*;

use crate::error::ErrorMessage;
use crate::state::Address;
use crate::state::EmployeeAccount;
use crate::state::Registry;

verus! {

/// The decision of a schedule registration: only the pool's authority may
/// create one, and only one per (beneficiary, pool) pair can ever exist.
pub open spec fn spec_create_employee_result(
    r: Registry,
    signer: Address,
    vesting_account: Address,
    beneficiary: Address,
) -> Result<(), ErrorMessage> {
    if signer != r.pool_at(vesting_account).owner {
        Err(ErrorMessage::NotAuthorized)
    } else if r.has_schedule_for(beneficiary, vesting_account) {
        Err(ErrorMessage::ScheduleAlreadyExists)
    } else {
        Ok(())
    }
}

/// Creates `beneficiary`'s vesting schedule in the pool at
/// `vesting_account`, with `total_withdrawn` starting at zero.
///
/// The timestamps are stored as supplied, without a temporal-ordering check;
/// a degenerate schedule is caught at claim time by the
/// `InvalidVestingPeriod` gate. Fails with `NotAuthorized` when `signer` is
/// not the pool's authority and with `ScheduleAlreadyExists` when the pair
/// already has a schedule; every failure leaves the registry unchanged.
pub fn create_employee(
    registry: &mut Registry,
    signer: Address,
    vesting_account: Address,
    beneficiary: Address,
    start_time: i64,
    end_time: i64,
    cliff_time: i64,
    total_amount: u64,
    bump: u8,
) -> (result: Result<(), ErrorMessage>)
    requires
        old(registry).wf(),
        old(registry).has_pool_at(vesting_account),
    ensures
        final(registry).wf(),
        result == spec_create_employee_result(
            *old(registry),
            signer,
            vesting_account,
            beneficiary,
        ),
        result is Err ==> *final(registry) == *old(registry),
        result is Ok ==> {
            &&& final(registry).pools@ == old(registry).pools@
            &&& final(registry).employees@ == old(registry).employees@.push(
                (EmployeeAccount {
                    beneficiary,
                    start_time,
                    end_time,
                    cliff_time,
                    total_amount,
                    total_withdrawn: 0,
                    vesting_account,
                    bump,
                }),
            )
        },
{
    let pi = registry.find_pool_by_address(vesting_account).unwrap();
    proof {
        let ci = old(registry).pool_index_at(vesting_account);
        assert(0 <= ci < old(registry).pools@.len() && old(registry).pools@[ci].address
            == vesting_account);
        assert(ci == pi as int);
    }
    if !(signer == registry.pools[pi].owner) {
        return Err(ErrorMessage::NotAuthorized);
    }
    if registry.find_employee(beneficiary, vesting_account).is_some() {
        return Err(ErrorMessage::ScheduleAlreadyExists);
    }
    let record = EmployeeAccount {
        beneficiary,
        start_time,
        end_time,
        cliff_time,
        total_amount,
        total_withdrawn: 0,
        vesting_account,
        bump,
    };
    registry.employees.push(record);
    proof {
        let upd = final(registry).employees@;
        let olde = old(registry).employees@;
        assert forall|i: int, j: int| 0 <= i < j < upd.len() implies !(upd[i].beneficiary
            == upd[j].beneficiary && upd[i].vesting_account == upd[j].vesting_account) by {
            if j < olde.len() {
                assert(upd[i] == olde[i] && upd[j] == olde[j]);
            } else {
                assert(upd[i] == olde[i]);
                assert(!old(registry).has_schedule_for(beneficiary, vesting_account));
            }
        }
        assert forall|i: int| 0 <= i < upd.len() implies final(registry).has_pool_at(
            upd[i].vesting_account,
        ) by {
            if i < olde.len() {
                let a = olde[i].vesting_account;
                assert(old(registry).has_pool_at(a));
                let w = choose|k: int|
                    0 <= k < old(registry).pools@.len() && old(registry).pools@[k].address == a;
                assert(final(registry).pools@[w].address == a);
            } else {
                let w = choose|k: int|
                    0 <= k < old(registry).pools@.len() && old(registry).pools@[k].address
                        == vesting_account;
                assert(final(registry).pools@[w].address == vesting_account);
            }
        }
        assert(final(registry).wf());
    }
    Ok(())
}

} // verus!
