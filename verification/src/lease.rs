//! The lease record, its lifecycle stages, the keys it is kept under and the
//! ways an operation on it can fail.

use vstd::prelude::*;
use vstd::std_specs::cmp::PartialEqSpecImpl;
use crate::identity::Identity;

verus! {

/// The stage of a lease in its lifecycle.
///
/// A lease is `Created`, becomes `DepositPaid` when the tenant pays, `Active`
/// when the landlord confirms the move-in, and `Closed` when the deposit is
/// released. `InDispute` is declared for a dispute process that the vault does
/// not have: no operation enters it.
#[derive(Clone, Copy, Debug, PartialEq, Eq, Structural)]
pub enum LeaseState {
    Created,
    DepositPaid,
    Active,
    InDispute,
    Closed,
}

/// Why an operation on the vault was refused.
#[derive(Clone, Copy, Debug, PartialEq, Eq, Structural)]
pub enum LeaseError {
    /// The vault holds no lease record, or no balance, yet.
    NotInitialized,
    /// The amount offered is below the deposit that the lease requires.
    InsufficientDeposit,
    /// The caller is not the party that the operation is reserved for.
    Unauthorized,
}

/// The terms of a lease and the stage it is in.
#[derive(Debug)]
pub struct LeaseInfo {
    pub tenant: Identity,
    pub landlord: Identity,
    pub deposit_amount: i128,
    pub monthly_rent: i128,
    pub start_date: u64,
    pub end_date: u64,
    pub state: LeaseState,
    pub property_address: String,
}

/// The model of a [`LeaseInfo`]: its parties and address as text, its amounts
/// and dates as mathematical integers.
pub struct LeaseRecord {
    pub tenant: Seq<char>,
    pub landlord: Seq<char>,
    pub deposit_amount: int,
    pub monthly_rent: int,
    pub start_date: nat,
    pub end_date: nat,
    pub state: LeaseState,
    pub property_address: Seq<char>,
}

impl LeaseRecord {
    /// This record moved to another stage, its terms unchanged.
    pub open spec fn with_state(self, state: LeaseState) -> LeaseRecord {
        LeaseRecord { state, ..self }
    }
}

impl View for LeaseInfo {
    type V = LeaseRecord;

    open spec fn view(&self) -> LeaseRecord {
        LeaseRecord {
            tenant: self.tenant@,
            landlord: self.landlord@,
            deposit_amount: self.deposit_amount as int,
            monthly_rent: self.monthly_rent as int,
            start_date: self.start_date as nat,
            end_date: self.end_date as nat,
            state: self.state,
            property_address: self.property_address@,
        }
    }
}

impl Clone for LeaseInfo {
    fn clone(&self) -> (copy: LeaseInfo)
        ensures
            copy@ == self@,
    {
        LeaseInfo {
            tenant: self.tenant.clone(),
            landlord: self.landlord.clone(),
            deposit_amount: self.deposit_amount,
            monthly_rent: self.monthly_rent,
            start_date: self.start_date,
            end_date: self.end_date,
            state: self.state,
            property_address: self.property_address.clone(),
        }
    }
}

impl PartialEq for LeaseInfo {
    fn eq(&self, other: &LeaseInfo) -> (same: bool) {
        self.tenant == other.tenant && self.landlord == other.landlord
            && self.deposit_amount == other.deposit_amount
            && self.monthly_rent == other.monthly_rent
            && self.start_date == other.start_date
            && self.end_date == other.end_date
            && self.state == other.state
            && self.property_address == other.property_address
    }
}

impl PartialEqSpecImpl for LeaseInfo {
    open spec fn obeys_eq_spec() -> bool {
        true
    }

    open spec fn eq_spec(&self, other: &LeaseInfo) -> bool {
        self@ == other@
    }
}

/// The keys under which the vault keeps its data.
///
/// The lease record and the balance each have a slot of their own. `Evidence`
/// names a slot per party for a dispute process that the vault does not have:
/// nothing is ever kept under it.
#[derive(Clone, Debug)]
pub enum DataKey {
    LeaseInfo,
    DepositBalance,
    Evidence(Identity),
}

} // verus!
