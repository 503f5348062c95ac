//! The claim engine: the linear vested-amount calculation, the claim
//! decision gates, and the treasury signing authorization.

use vstd::prelude::*;

use vstd::arithmetic::div_mod::lemma_div_by_multiple;
use vstd::arithmetic::div_mod::lemma_div_is_ordered;
use vstd::arithmetic::mul::lemma_mul_inequality;

use crate::error::ErrorMessage;
use crate::state::Address;
use crate::state::EmployeeAccount;
use crate::state::Registry;
use crate::state::TransferInstruction;
use crate::state::bytes_clone;

verus! {

/// How a successful claim updates the schedule's `total_withdrawn` counter.
///
/// `Overwrite` stores only the amount moved by this claim, discarding the
/// previous counter value; `Accumulate` adds the moved amount to the counter.
/// Only `Accumulate` keeps `total_withdrawn` equal to the cumulative amount
/// ever transferred, so only it preserves the claim-once-per-instant
/// behavior across a history of claims; `Overwrite` is kept selectable for
/// hosts whose records use that update rule, and its weakness is stated in
/// `lemma_second_claim_overwrite`.
#[derive(Clone, Copy, Debug, PartialEq, Eq, Structural)]
pub enum ClaimMode {
    Overwrite,
    Accumulate,
}

/// Seconds from `start` to `now`, floored at zero when `now` is earlier and
/// saturating at the top of the timestamp type.
pub open spec fn spec_elapsed(now: int, start: int) -> int {
    if now <= start {
        0
    } else if now - start > i64::MAX {
        i64::MAX as int
    } else {
        now - start
    }
}

/// The schedule's vesting duration: `end_time - start_time`, floored at zero
/// for malformed schedules whose end precedes their start.
pub open spec fn spec_duration(e: EmployeeAccount) -> int {
    spec_elapsed(e.end_time as int, e.start_time as int)
}

/// The cumulative entitlement unlocked by time `now`: the full allocation
/// once `end_time` is reached, otherwise the linear fraction
/// `floor(total_amount * elapsed / duration)`. A schedule with zero duration
/// never reaches this formula through a claim (the claim gates reject it
/// first); its pre-end value is fixed at zero here so the function is total.
pub open spec fn spec_vested(e: EmployeeAccount, now: int) -> int {
    if now >= e.end_time as int {
        e.total_amount as int
    } else if spec_duration(e) == 0 {
        0
    } else {
        (e.total_amount as int * spec_elapsed(now, e.start_time as int)) / spec_duration(e)
    }
}

/// The amount a claim at `now` would transfer: the vested entitlement minus
/// what was already withdrawn, floored at zero.
pub open spec fn spec_claimable(e: EmployeeAccount, now: int) -> int {
    if spec_vested(e, now) >= e.total_withdrawn as int {
        spec_vested(e, now) - e.total_withdrawn as int
    } else {
        0
    }
}

/// The full claim decision at time `now`: which error a claim fails with, or
/// the exact amount it transfers.
pub open spec fn spec_claim(e: EmployeeAccount, now: int) -> Result<int, ErrorMessage> {
    if now < e.cliff_time as int {
        Err(ErrorMessage::ClaimNotAvailableYet)
    } else if spec_duration(e) == 0 {
        Err(ErrorMessage::InvalidVestingPeriod)
    } else if spec_claimable(e, now) == 0 {
        Err(ErrorMessage::NothingToClaim)
    } else {
        Ok(spec_claimable(e, now))
    }
}

/// The schedule as a successful claim of `amount` at mode `mode` leaves it:
/// only `total_withdrawn` changes.
pub open spec fn spec_after_claim(e: EmployeeAccount, amount: int, mode: ClaimMode) -> EmployeeAccount {
    EmployeeAccount {
        total_withdrawn: if mode is Overwrite {
            amount as u64
        } else {
            (e.total_withdrawn + amount) as u64
        },
        ..e
    }
}

/// Seconds from `start` to `now`, floored at zero and saturating at
/// `i64::MAX`.
pub fn elapsed_since(now: i64, start: i64) -> (r: i64)
    ensures
        r as int == spec_elapsed(now as int, start as int),
        0 <= r,
{
    if now <= start {
        0
    } else {
        let d: i128 = now as i128 - start as i128;
        if d > i64::MAX as i128 {
            i64::MAX
        } else {
            d as i64
        }
    }
}

/// The vested entitlement never exceeds the total allocation.
pub proof fn lemma_vested_le_total(e: EmployeeAccount, now: int)
    ensures
        spec_vested(e, now) <= e.total_amount as int,
        0 <= spec_vested(e, now),
{
    if now < e.end_time as int && spec_duration(e) != 0 {
        let total = e.total_amount as int;
        let elapsed = spec_elapsed(now, e.start_time as int);
        let duration = spec_duration(e);
        assert(0 <= elapsed <= duration);
        lemma_mul_inequality(elapsed, duration, total);
        lemma_div_is_ordered(elapsed * total, duration * total, duration);
        lemma_div_by_multiple(total, duration);
        assert(total * elapsed == elapsed * total) by (nonlinear_arith);
        assert(total * duration == duration * total) by (nonlinear_arith);
        lemma_div_is_ordered(0, total * elapsed, duration);
    }
}

/// The vested entitlement never decreases as time advances.
pub proof fn lemma_vested_monotonic(e: EmployeeAccount, now_before: int, now_after: int)
    requires
        now_before <= now_after,
    ensures
        spec_vested(e, now_before) <= spec_vested(e, now_after),
{
    lemma_vested_le_total(e, now_before);
    lemma_vested_le_total(e, now_after);
    if now_before < e.end_time as int && now_after < e.end_time as int && spec_duration(e) != 0 {
        let total = e.total_amount as int;
        let duration = spec_duration(e);
        let e1 = spec_elapsed(now_before, e.start_time as int);
        let e2 = spec_elapsed(now_after, e.start_time as int);
        assert(e1 <= e2);
        lemma_mul_inequality(e1, e2, total);
        assert(total * e1 == e1 * total) by (nonlinear_arith);
        assert(total * e2 == e2 * total) by (nonlinear_arith);
        lemma_div_is_ordered(total * e1, total * e2, duration);
    }
}

/// Before the cliff, every claim fails with `ClaimNotAvailableYet`.
pub proof fn lemma_claim_before_cliff(e: EmployeeAccount, now: int)
    requires
        now < e.cliff_time as int,
    ensures
        spec_claim(e, now) == Err::<int, ErrorMessage>(ErrorMessage::ClaimNotAvailableYet),
{
}

/// From `end_time` on, the vested entitlement is exactly the total
/// allocation, no matter how far past the end `now` lies.
pub proof fn lemma_fully_vested(e: EmployeeAccount, now: int)
    requires
        now >= e.end_time as int,
    ensures
        spec_vested(e, now) == e.total_amount as int,
{
}

/// Strictly between start and end, the vested entitlement is the exact
/// linear floor formula. The one bound asked for is that the schedule's
/// span fits the timestamp type, so that neither difference saturates.
pub proof fn lemma_linear_vesting(e: EmployeeAccount, now: int)
    requires
        (e.start_time as int) < now < (e.end_time as int),
        e.end_time as int - e.start_time as int <= i64::MAX as int,
    ensures
        spec_vested(e, now) == (e.total_amount as int * (now - e.start_time as int)) / (
        e.end_time as int - e.start_time as int),
{
}

/// A schedule with a zero total allocation never has anything to claim:
/// past the gates, every claim fails with `NothingToClaim`.
pub proof fn lemma_zero_total_nothing_to_claim(e: EmployeeAccount, now: int)
    requires
        e.total_amount == 0,
        now >= e.cliff_time as int,
        spec_duration(e) > 0,
    ensures
        spec_claim(e, now) == Err::<int, ErrorMessage>(ErrorMessage::NothingToClaim),
{
    lemma_vested_le_total(e, now);
}

/// Claiming twice at the same instant: in `Accumulate` mode a successful
/// claim always leaves the schedule with nothing further to claim at that
/// instant, so the second attempt fails with `NothingToClaim`.
pub proof fn lemma_second_claim_accumulate(e: EmployeeAccount, now: int)
    requires
        spec_claim(e, now) is Ok,
    ensures
        spec_claim(
            spec_after_claim(e, spec_claim(e, now)->Ok_0, ClaimMode::Accumulate),
            now,
        ) == Err::<int, ErrorMessage>(ErrorMessage::NothingToClaim),
{
    lemma_vested_le_total(e, now);
    let amount = spec_claim(e, now)->Ok_0;
    let e2 = spec_after_claim(e, amount, ClaimMode::Accumulate);
    assert(e2.total_withdrawn as int == spec_vested(e, now));
    assert(spec_vested(e2, now) == spec_vested(e, now));
}

/// Claiming twice at the same instant in `Overwrite` mode: when nothing had
/// been withdrawn before the first claim, the counter it stores equals the
/// whole vested entitlement, and the second attempt fails with
/// `NothingToClaim`. (With an earlier nonzero withdrawal the overwrite
/// discards that history and a second claim can succeed again.)
pub proof fn lemma_second_claim_overwrite(e: EmployeeAccount, now: int)
    requires
        e.total_withdrawn == 0,
        spec_claim(e, now) is Ok,
    ensures
        spec_claim(
            spec_after_claim(e, spec_claim(e, now)->Ok_0, ClaimMode::Overwrite),
            now,
        ) == Err::<int, ErrorMessage>(ErrorMessage::NothingToClaim),
{
    lemma_vested_le_total(e, now);
    let amount = spec_claim(e, now)->Ok_0;
    let e2 = spec_after_claim(e, amount, ClaimMode::Overwrite);
    assert(e2.total_withdrawn as int == spec_vested(e, now));
    assert(spec_vested(e2, now) == spec_vested(e, now));
}

/// A completed claim never leaves `total_withdrawn` above the vested
/// entitlement at the claim's instant, in either update mode.
pub proof fn lemma_claim_respects_entitlement(e: EmployeeAccount, now: int, mode: ClaimMode)
    requires
        spec_claim(e, now) is Ok,
    ensures
        spec_after_claim(e, spec_claim(e, now)->Ok_0, mode).total_withdrawn as int <= spec_vested(
            e,
            now,
        ),
{
    lemma_vested_le_total(e, now);
}

/// Computes the vested entitlement at `now`, using a widened intermediate
/// product so the multiplication can never overflow: the product of a `u64`
/// allocation and an `i64` elapsed time always fits in a `u128`.
pub fn vested_amount(e: &EmployeeAccount, now: i64) -> (r: u64)
    requires
        spec_duration(*e) > 0,
    ensures
        r as int == spec_vested(*e, now as int),
{
    if now >= e.end_time {
        e.total_amount
    } else {
        let elapsed: i64 = elapsed_since(now, e.start_time);
        let duration: i64 = elapsed_since(e.end_time, e.start_time);
        assert(elapsed <= duration);
        proof {
            assert((e.total_amount as int) * (elapsed as int) <= (u64::MAX as int) * (
            i64::MAX as int)) by (nonlinear_arith)
                requires
                    0 <= e.total_amount as int <= u64::MAX as int,
                    0 <= elapsed as int <= i64::MAX as int,
            ;
        }
        let product: u128 = (e.total_amount as u128) * (elapsed as u128);
        let v: u128 = product / (duration as u128);
        proof {
            lemma_vested_le_total(*e, now as int);
        }
        v as u64
    }
}

/// The domain tag of the treasury's derived address: the ASCII bytes of
/// "vesting_treasury".
pub open spec fn spec_treasury_seed_tag() -> Seq<u8> {
    seq![
        118u8, 101u8, 115u8, 116u8, 105u8, 110u8, 103u8, 95u8, 116u8, 114u8, 101u8, 97u8, 115u8,
        117u8, 114u8, 121u8,
    ]
}

/// The domain tag "vesting_treasury" as a byte vector.
pub fn treasury_seed_tag() -> (r: Vec<u8>)
    ensures
        r@ == spec_treasury_seed_tag(),
{
    let mut v: Vec<u8> = Vec::new();
    v.push(118);
    v.push(101);
    v.push(115);
    v.push(116);
    v.push(105);
    v.push(110);
    v.push(103);
    v.push(95);
    v.push(116);
    v.push(114);
    v.push(101);
    v.push(97);
    v.push(115);
    v.push(117);
    v.push(114);
    v.push(121);
    proof {
        assert(v@ =~= spec_treasury_seed_tag());
    }
    v
}

/// The treasury's signing credential: exactly the seed tuple the treasury
/// address was derived from — the domain tag, the company name, and the
/// derivation proof — which the host's transfer primitive accepts in place
/// of a signature for derived accounts.
pub fn treasury_signer_seeds(company_name: &Vec<u8>, treasury_bump: u8) -> (r: Vec<Vec<u8>>)
    ensures
        r@.len() == 3,
        r@[0]@ == spec_treasury_seed_tag(),
        r@[1]@ == company_name@,
        r@[2]@ == seq![treasury_bump],
{
    let mut seeds: Vec<Vec<u8>> = Vec::new();
    seeds.push(treasury_seed_tag());
    seeds.push(bytes_clone(company_name));
    let mut proof_seed: Vec<u8> = Vec::new();
    proof_seed.push(treasury_bump);
    proof {
        assert(proof_seed@ =~= seq![treasury_bump]);
    }
    seeds.push(proof_seed);
    seeds
}

/// Claims the currently claimable amount for `beneficiary` from the pool at
/// `vesting_account`, as of the host clock reading `now`.
///
/// On success the schedule's `total_withdrawn` is updated according to
/// `mode` and the returned instruction authorizes a treasury transfer of
/// exactly the claimable amount; on any failure the registry is unchanged.
/// Which error comes back, or which amount is moved, is exactly
/// `spec_claim` on the beneficiary's schedule.
pub fn token_claiming(
    registry: &mut Registry,
    beneficiary: Address,
    vesting_account: Address,
    now: i64,
    mode: ClaimMode,
) -> (result: Result<TransferInstruction, ErrorMessage>)
    requires
        old(registry).wf(),
        old(registry).has_pool_at(vesting_account),
        old(registry).has_schedule_for(beneficiary, vesting_account),
    ensures
        final(registry).wf(),
        final(registry).pools@ == old(registry).pools@,
        ({
            let e = old(registry).schedule_of(beneficiary, vesting_account);
            let pool = old(registry).pool_at(vesting_account);
            match result {
                Err(er) => {
                    &&& spec_claim(e, now as int) == Err::<int, ErrorMessage>(er)
                    &&& *final(registry) == *old(registry)
                },
                Ok(ti) => {
                    &&& spec_claim(e, now as int) == Ok::<int, ErrorMessage>(ti.amount as int)
                    &&& ti.from == pool.treasury_token_account
                    &&& ti.to_owner == beneficiary
                    &&& ti.mint == pool.mint
                    &&& ti.signer_seeds@.len() == 3
                    &&& ti.signer_seeds@[0]@ == spec_treasury_seed_tag()
                    &&& ti.signer_seeds@[1]@ == pool.company_name@
                    &&& ti.signer_seeds@[2]@ == seq![pool.treasury_bump]
                    &&& final(registry).employees@ == old(registry).employees@.update(
                        old(registry).employee_index_for(beneficiary, vesting_account),
                        spec_after_claim(e, ti.amount as int, mode),
                    )
                },
            }
        }),
{
    let pi = registry.find_pool_by_address(vesting_account).unwrap();
    let ei = registry.find_employee(beneficiary, vesting_account).unwrap();
    proof {
        let ci = old(registry).pool_index_at(vesting_account);
        assert(0 <= ci < old(registry).pools@.len() && old(registry).pools@[ci].address
            == vesting_account);
        assert(ci == pi as int);
        let cj = old(registry).employee_index_for(beneficiary, vesting_account);
        assert(0 <= cj < old(registry).employees@.len() && old(registry).employees@[cj].beneficiary
            == beneficiary && old(registry).employees@[cj].vesting_account == vesting_account);
        assert(cj == ei as int);
    }
    let treasury = registry.pools[pi].treasury_token_account;
    let mint = registry.pools[pi].mint;
    let treasury_bump = registry.pools[pi].treasury_bump;
    let company_name = bytes_clone(&registry.pools[pi].company_name);
    let e: EmployeeAccount = registry.employees[ei];

    if now < e.cliff_time {
        return Err(ErrorMessage::ClaimNotAvailableYet);
    }
    let duration = elapsed_since(e.end_time, e.start_time);
    if duration == 0 {
        return Err(ErrorMessage::InvalidVestingPeriod);
    }
    let vested = vested_amount(&e, now);
    let claimable = if vested >= e.total_withdrawn {
        vested - e.total_withdrawn
    } else {
        0
    };
    if claimable == 0 {
        return Err(ErrorMessage::NothingToClaim);
    }

    let seeds = treasury_signer_seeds(&company_name, treasury_bump);
    proof {
        lemma_vested_le_total(e, now as int);
    }
    let new_withdrawn: u64 = match mode {
        ClaimMode::Overwrite => claimable,
        ClaimMode::Accumulate => e.total_withdrawn + claimable,
    };
    registry.employees[ei].total_withdrawn = new_withdrawn;

    proof {
        let upd = final(registry).employees@;
        let olde = old(registry).employees@;
        assert forall|i: int, j: int| 0 <= i < j < upd.len() implies !(upd[i].beneficiary
            == upd[j].beneficiary && upd[i].vesting_account == upd[j].vesting_account) by {
            assert(upd[i].beneficiary == olde[i].beneficiary && upd[i].vesting_account
                == olde[i].vesting_account);
            assert(upd[j].beneficiary == olde[j].beneficiary && upd[j].vesting_account
                == olde[j].vesting_account);
        }
        assert forall|i: int| 0 <= i < upd.len() implies final(registry).has_pool_at(
            upd[i].vesting_account,
        ) by {
            assert(old(registry).has_pool_at(olde[i].vesting_account));
            let w = choose|k: int|
                0 <= k < old(registry).pools@.len() && old(registry).pools@[k].address
                    == olde[i].vesting_account;
            assert(final(registry).pools@[w].address == upd[i].vesting_account);
        }
        assert(final(registry).wf());
    }

    Ok(
        TransferInstruction {
            from: treasury,
            to_owner: beneficiary,
            mint,
            amount: claimable,
            signer_seeds: seeds,
        },
    )
}

} // verus!
