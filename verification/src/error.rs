//! The error taxonomy of the vesting ledger.

use vstd::prelude::*;

verus! {

/// Everything that can go wrong while creating a pool, creating an employee
/// schedule, or claiming vested tokens. Every operation either completes in
/// full or fails with one of these and leaves no partial state behind.
#[derive(Clone, Copy, Debug, PartialEq, Eq, Structural)]
pub enum ErrorMessage {
    /// A vesting pool is already registered for this company name.
    DuplicatePool,
    /// A schedule already exists for this (beneficiary, pool) pair.
    ScheduleAlreadyExists,
    /// The caller is not the pool's controlling authority.
    NotAuthorized,
    /// The cliff time has not been reached yet.
    ClaimNotAvailableYet,
    /// The schedule's vesting duration is zero (or negative).
    InvalidVestingPeriod,
    /// The vested-amount product cannot be represented even in the widened
    /// intermediate type.
    CalculationOverFlow,
    /// Nothing has newly vested since the last withdrawal.
    NothingToClaim,
}

} // verus!
