//! The data model: pools, employee schedules, and the ledger registry.

use vstd::prelude::*;

verus! {

/// The identity of an account on the host ledger. The host derives these
/// addresses deterministically from seed material; inside this crate they are
/// opaque identifiers that are only compared for equality.
#[derive(Clone, Copy, Debug, PartialEq, Eq, Structural)]
pub struct Address {
    pub id: u64,
}

/// A per-company vesting pool: its controlling authority, the asset it vests,
/// and the treasury holding the deposited balance. All fields are immutable
/// after creation.
#[derive(Debug)]
pub struct VestingAccount {
    /// The pool's own derived address.
    pub address: Address,
    /// The only identity allowed to register employee schedules.
    pub owner: Address,
    /// The fungible asset type this pool vests.
    pub mint: Address,
    /// The account holding the pool's deposited asset balance.
    pub treasury_token_account: Address,
    /// The company key (UTF-8 bytes, at most 50); seed material for the
    /// pool's and the treasury's derived addresses.
    pub company_name: Vec<u8>,
    /// Derivation proof for the treasury address; part of the signer seeds.
    pub treasury_bump: u8,
    /// Derivation proof for the pool's own address.
    pub bump: u8,
}

/// One employee's linear-vesting schedule and cumulative withdrawal state.
#[derive(Clone, Copy, Debug, PartialEq, Eq, Structural)]
pub struct EmployeeAccount {
    /// The entitled party.
    pub beneficiary: Address,
    /// When linear vesting starts (seconds since epoch).
    pub start_time: i64,
    /// When the allocation is fully vested.
    pub end_time: i64,
    /// No claim is permitted before this time.
    pub cliff_time: i64,
    /// Total tokens allocated over the full schedule.
    pub total_amount: u64,
    /// Cumulative amount already transferred to the beneficiary.
    pub total_withdrawn: u64,
    /// The owning pool's address.
    pub vesting_account: Address,
    /// Derivation proof for this record's own address.
    pub bump: u8,
}

/// The authorization and payload of one treasury transfer, handed to the
/// host's asset-transfer primitive. The signer seeds reproduce, byte for
/// byte, the seed tuple the treasury address was derived from; presenting
/// them is how the pool signs for an account that has no private key.
#[derive(Debug)]
pub struct TransferInstruction {
    /// The pool's treasury token account (the source).
    pub from: Address,
    /// The beneficiary; the host resolves (creating it if absent) their
    /// asset-holding account as the destination.
    pub to_owner: Address,
    /// The asset to move; the host reads its decimal precision from the
    /// asset's own metadata.
    pub mint: Address,
    /// Exactly the claimable amount.
    pub amount: u64,
    /// The treasury's signing credential: domain tag, company name, proof.
    pub signer_seeds: Vec<Vec<u8>>,
}

/// The ledger state this crate reasons about: every pool and every employee
/// schedule, keyed by the uniqueness rules the host's account layer enforces
/// through derived addresses.
pub struct Registry {
    pub pools: Vec<VestingAccount>,
    pub employees: Vec<EmployeeAccount>,
}

impl Registry {
    /// Some pool is already registered under this company name.
    pub open spec fn has_pool_named(self, name: Seq<u8>) -> bool {
        exists|i: int| 0 <= i < self.pools@.len() && self.pools@[i].company_name@ == name
    }

    /// Some pool occupies this derived address.
    pub open spec fn has_pool_at(self, address: Address) -> bool {
        exists|i: int| 0 <= i < self.pools@.len() && self.pools@[i].address == address
    }

    /// A schedule already exists for this (beneficiary, pool) pair.
    pub open spec fn has_schedule_for(self, beneficiary: Address, pool: Address) -> bool {
        exists|i: int|
            0 <= i < self.employees@.len() && self.employees@[i].beneficiary == beneficiary
                && self.employees@[i].vesting_account == pool
    }

    /// The index of the pool occupying `address`; meaningful only when
    /// `has_pool_at(address)` holds (unique under `wf`).
    pub open spec fn pool_index_at(self, address: Address) -> int {
        choose|i: int| 0 <= i < self.pools@.len() && self.pools@[i].address == address
    }

    /// The pool occupying `address`.
    pub open spec fn pool_at(self, address: Address) -> VestingAccount {
        self.pools@[self.pool_index_at(address)]
    }

    /// The index of the pool registered under `name`; meaningful only when
    /// `has_pool_named(name)` holds (unique under `wf`).
    pub open spec fn pool_index_named(self, name: Seq<u8>) -> int {
        choose|i: int| 0 <= i < self.pools@.len() && self.pools@[i].company_name@ == name
    }

    /// The pool registered under `name`.
    pub open spec fn pool_named(self, name: Seq<u8>) -> VestingAccount {
        self.pools@[self.pool_index_named(name)]
    }

    /// The index of the schedule for the (beneficiary, pool) pair; meaningful
    /// only when `has_schedule_for` holds (unique under `wf`).
    pub open spec fn employee_index_for(self, beneficiary: Address, pool: Address) -> int {
        choose|i: int|
            0 <= i < self.employees@.len() && self.employees@[i].beneficiary == beneficiary
                && self.employees@[i].vesting_account == pool
    }

    /// The schedule of the (beneficiary, pool) pair.
    pub open spec fn schedule_of(self, beneficiary: Address, pool: Address) -> EmployeeAccount {
        self.employees@[self.employee_index_for(beneficiary, pool)]
    }

    /// Well-formedness: company names and pool addresses are unique, at most
    /// one schedule exists per (beneficiary, pool) pair, every schedule
    /// belongs to a registered pool, company names are bounded, and no
    /// schedule has withdrawn more than its total allocation.
    pub open spec fn wf(self) -> bool {
        &&& forall|i: int, j: int|
            0 <= i < j < self.pools@.len() ==> self.pools@[i].company_name@
                != self.pools@[j].company_name@ && self.pools@[i].address != self.pools@[j].address
        &&& forall|i: int, j: int|
            0 <= i < j < self.employees@.len() ==> !(self.employees@[i].beneficiary
                == self.employees@[j].beneficiary && self.employees@[i].vesting_account
                == self.employees@[j].vesting_account)
        &&& forall|i: int|
            0 <= i < self.employees@.len() ==> self.has_pool_at(
                self.employees@[i].vesting_account,
            )
        &&& forall|i: int|
            0 <= i < self.pools@.len() ==> self.pools@[i].company_name@.len() <= 50
        &&& forall|i: int|
            0 <= i < self.employees@.len() ==> self.employees@[i].total_withdrawn
                <= self.employees@[i].total_amount
    }

    /// An empty ledger, trivially well-formed.
    pub fn new() -> (r: Registry)
        ensures
            r.wf(),
            r.pools@.len() == 0,
            r.employees@.len() == 0,
    {
        Registry { pools: Vec::new(), employees: Vec::new() }
    }

    /// Finds the pool occupying `address`, if any.
    pub fn find_pool_by_address(&self, address: Address) -> (r: Option<usize>)
        ensures
            match r {
                Some(i) => i < self.pools@.len() && self.pools@[i as int].address == address,
                None => !self.has_pool_at(address),
            },
    {
        let mut i: usize = 0;
        while i < self.pools.len()
            invariant
                i <= self.pools@.len(),
                forall|k: int| 0 <= k < i ==> self.pools@[k].address != address,
            decreases self.pools@.len() - i,
        {
            if self.pools[i].address == address {
                return Some(i);
            }
            i += 1;
        }
        None
    }

    /// Finds the pool registered under `name`, if any.
    pub fn find_pool_by_name(&self, name: &Vec<u8>) -> (r: Option<usize>)
        ensures
            match r {
                Some(i) => i < self.pools@.len() && self.pools@[i as int].company_name@ == name@,
                None => !self.has_pool_named(name@),
            },
    {
        let mut i: usize = 0;
        while i < self.pools.len()
            invariant
                i <= self.pools@.len(),
                forall|k: int| 0 <= k < i ==> self.pools@[k].company_name@ != name@,
            decreases self.pools@.len() - i,
        {
            if bytes_eq(&self.pools[i].company_name, name) {
                return Some(i);
            }
            i += 1;
        }
        None
    }

    /// Finds the schedule for the (beneficiary, pool) pair, if any.
    pub fn find_employee(&self, beneficiary: Address, pool: Address) -> (r: Option<usize>)
        ensures
            match r {
                Some(i) => i < self.employees@.len() && self.employees@[i as int].beneficiary
                    == beneficiary && self.employees@[i as int].vesting_account == pool,
                None => !self.has_schedule_for(beneficiary, pool),
            },
    {
        let mut i: usize = 0;
        while i < self.employees.len()
            invariant
                i <= self.employees@.len(),
                forall|k: int|
                    0 <= k < i ==> !(self.employees@[k].beneficiary == beneficiary
                        && self.employees@[k].vesting_account == pool),
            decreases self.employees@.len() - i,
        {
            if self.employees[i].beneficiary == beneficiary && self.employees[i].vesting_account
                == pool {
                return Some(i);
            }
            i += 1;
        }
        None
    }
}

/// A byte-for-byte copy of a byte vector.
pub fn bytes_clone(a: &Vec<u8>) -> (r: Vec<u8>)
    ensures
        r@ == a@,
{
    let mut r: Vec<u8> = Vec::new();
    let mut i: usize = 0;
    while i < a.len()
        invariant
            i <= a@.len(),
            r@ == a@.subrange(0, i as int),
        decreases a@.len() - i,
    {
        r.push(a[i]);
        proof {
            assert(r@ =~= a@.subrange(0, i + 1 as int));
        }
        i += 1;
    }
    proof {
        assert(r@ =~= a@);
    }
    r
}

/// Byte-for-byte equality of two byte vectors.
pub fn bytes_eq(a: &Vec<u8>, b: &Vec<u8>) -> (r: bool)
    ensures
        r == (a@ == b@),
{
    if a.len() != b.len() {
        assert(a@ != b@);
        return false;
    }
    let mut i: usize = 0;
    while i < a.len()
        invariant
            i <= a@.len(),
            a@.len() == b@.len(),
            forall|k: int| 0 <= k < i ==> a@[k] == b@[k],
        decreases a@.len() - i,
    {
        if a[i] != b[i] {
            return false;
        }
        i += 1;
    }
    proof {
        assert(a@ =~= b@);
    }
    true
}

} // verus!
