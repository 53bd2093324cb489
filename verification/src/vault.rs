//! The vault: the lease record and the balance in escrow, and the operations
//! that move the lease through its lifecycle.

use vstd::prelude::*;
use crate::identity::Identity;
use crate::lease::{DataKey, LeaseError, LeaseInfo, LeaseRecord, LeaseState};
use crate::model::VaultState;

verus! {

/// The escrow for one lease.
///
/// A vault starts empty, is given its lease by [`LeaseVault::initialize`], and
/// from then on holds the lease record and the balance together. Its model is
/// the [`VaultState`] of its two slots, and every vault is
/// [consistent](VaultState::consistent).
pub struct LeaseVault {
    lease_info: Option<LeaseInfo>,
    deposit_balance: Option<i128>,
}

impl View for LeaseVault {
    type V = VaultState;

    closed spec fn view(&self) -> VaultState {
        VaultState::of_slots(self.lease_info, self.deposit_balance)
    }
}

impl LeaseVault {
    /// Every vault is in a consistent state.
    #[verifier::type_invariant]
    pub open spec fn well_formed(self) -> bool {
        self@.consistent()
    }

    /// A vault that holds nothing yet.
    pub fn new() -> (vault: LeaseVault)
        ensures
            vault@ == VaultState::empty(),
    {
        LeaseVault { lease_info: None, deposit_balance: None }
    }

    /// The vault that holds the given slots, as they were read back from where
    /// a vault was kept; `None` when they are not a consistent state, which no
    /// vault ever holds.
    pub fn restore(lease_info: Option<LeaseInfo>, deposit_balance: Option<i128>) -> (vault: Option<
        LeaseVault,
    >)
        ensures
            vault is Some <==> VaultState::of_slots(lease_info, deposit_balance).consistent(),
            vault matches Some(restored) ==> restored@ == VaultState::of_slots(
                lease_info,
                deposit_balance,
            ),
    {
        let consistent = match (&lease_info, &deposit_balance) {
            (None, None) => true,
            (Some(info), Some(balance)) => match info.state {
                LeaseState::Created | LeaseState::Closed => *balance == 0,
                LeaseState::DepositPaid => *balance >= info.deposit_amount,
                LeaseState::Active => *balance == 0 || *balance >= info.deposit_amount,
                LeaseState::InDispute => false,
            },
            _ => false,
        };
        if consistent {
            Some(LeaseVault { lease_info, deposit_balance })
        } else {
            None
        }
    }

    /// Whether the vault keeps something under `key`.
    pub fn contains(&self, key: &DataKey) -> (present: bool)
        ensures
            present == self@.holds(*key),
    {
        match key {
            DataKey::LeaseInfo => self.lease_info.is_some(),
            DataKey::DepositBalance => self.deposit_balance.is_some(),
            DataKey::Evidence(_) => false,
        }
    }

    /// Sets the vault up for a lease with the given terms.
    ///
    /// The record starts in stage `Created` and the balance at zero. Any caller
    /// may initialize, and initializing again replaces the lease and clears
    /// the balance.
    pub fn initialize(
        &mut self,
        tenant: Identity,
        landlord: Identity,
        deposit_amount: i128,
        monthly_rent: i128,
        start_date: u64,
        end_date: u64,
        property_address: String,
    )
        ensures
            final(self)@ == old(self)@.after_initialize(
                (LeaseRecord {
                    tenant: tenant@,
                    landlord: landlord@,
                    deposit_amount: deposit_amount as int,
                    monthly_rent: monthly_rent as int,
                    start_date: start_date as nat,
                    end_date: end_date as nat,
                    state: LeaseState::Created,
                    property_address: property_address@,
                }),
            ),
    {
        let lease_info = LeaseInfo {
            tenant,
            landlord,
            deposit_amount,
            monthly_rent,
            start_date,
            end_date,
            state: LeaseState::Created,
            property_address,
        };
        *self = LeaseVault { lease_info: Some(lease_info), deposit_balance: Some(0) };
    }

    /// Takes the deposit of `amount` that `caller` pays in the name of `from`.
    ///
    /// `caller` is the party that has proved its identity for this call. The
    /// deposit is refused with `Unauthorized` when the caller is not `from`,
    /// else with `NotInitialized` when there is no lease, else with
    /// `InsufficientDeposit` when `amount` is below the required deposit; a
    /// refusal changes nothing. Otherwise the balance becomes `amount`,
    /// replacing what was held, and the lease becomes `DepositPaid`, whatever
    /// stage it was in.
    pub fn deposit(&mut self, caller: &Identity, from: &Identity, amount: i128) -> (result: Result<
        (),
        LeaseError,
    >)
        ensures
            result == old(self)@.deposit_result(caller@, from@, amount as int),
            final(self)@ == old(self)@.after_deposit(caller@, from@, amount as int),
    {
        if caller != from {
            return Err(LeaseError::Unauthorized);
        }
        match &self.lease_info {
            None => {
                return Err(LeaseError::NotInitialized);
            },
            Some(info) => {
                if amount < info.deposit_amount {
                    return Err(LeaseError::InsufficientDeposit);
                }
            },
        }
        let (lease_info, _) = self.take_slots();
        let mut info = lease_info.unwrap();
        info.state = LeaseState::DepositPaid;
        *self = LeaseVault { lease_info: Some(info), deposit_balance: Some(amount) };
        Ok(())
    }

    /// Records that the tenant has moved in, on the word of `landlord`.
    ///
    /// `caller` is the party that has proved its identity for this call. The
    /// confirmation is refused with `Unauthorized` when the caller is not
    /// `landlord`, else with `NotInitialized` when there is no lease, else with
    /// `Unauthorized` when `landlord` is not the landlord of the lease; a
    /// refusal changes nothing. Otherwise the lease becomes `Active`, whatever
    /// stage it was in, and the balance stays as it is.
    pub fn confirm_move_in(&mut self, caller: &Identity, landlord: &Identity) -> (result: Result<
        (),
        LeaseError,
    >)
        ensures
            result == old(self)@.confirm_move_in_result(caller@, landlord@),
            final(self)@ == old(self)@.after_confirm_move_in(caller@, landlord@),
    {
        proof {
            use_type_invariant(&*self);
        }
        if caller != landlord {
            return Err(LeaseError::Unauthorized);
        }
        match &self.lease_info {
            None => {
                return Err(LeaseError::NotInitialized);
            },
            Some(info) => {
                if *landlord != info.landlord {
                    return Err(LeaseError::Unauthorized);
                }
            },
        }
        let (lease_info, deposit_balance) = self.take_slots();
        let mut info = lease_info.unwrap();
        info.state = LeaseState::Active;
        *self = LeaseVault { lease_info: Some(info), deposit_balance };
        Ok(())
    }

    /// Releases the deposit and closes the lease.
    ///
    /// Any caller may do so, in any stage of the lease, and `to` names the
    /// recipient without entering the outcome: the vault only clears its books,
    /// and paying the recipient is the business of whoever called. Fails with
    /// `NotInitialized`, changing nothing, when the record or the balance is
    /// missing.
    #[allow(unused_variables)]
    pub fn release_deposit(&mut self, to: &Identity) -> (result: Result<(), LeaseError>)
        ensures
            result == old(self)@.release_deposit_result(),
            final(self)@ == old(self)@.after_release_deposit(),
    {
        if self.lease_info.is_none() || self.deposit_balance.is_none() {
            return Err(LeaseError::NotInitialized);
        }
        let (lease_info, _) = self.take_slots();
        let mut info = lease_info.unwrap();
        info.state = LeaseState::Closed;
        *self = LeaseVault { lease_info: Some(info), deposit_balance: Some(0) };
        Ok(())
    }

    /// The lease record, or `NotInitialized` when the vault holds none.
    pub fn get_lease_info(&self) -> (result: Result<LeaseInfo, LeaseError>)
        ensures
            match result {
                Ok(info) => self@.lease_info_result() == Ok::<LeaseRecord, LeaseError>(info@),
                Err(error) => self@.lease_info_result() == Err::<LeaseRecord, LeaseError>(error),
            },
    {
        match &self.lease_info {
            Some(info) => Ok(info.clone()),
            None => Err(LeaseError::NotInitialized),
        }
    }

    /// The balance in escrow, or zero when the vault holds none.
    pub fn get_balance(&self) -> (balance: i128)
        ensures
            balance == self@.balance(),
    {
        match self.deposit_balance {
            Some(balance) => balance,
            None => 0,
        }
    }

    /// Empties the vault and hands out what it held.
    fn take_slots(&mut self) -> (slots: (Option<LeaseInfo>, Option<i128>))
        ensures
            slots.0 == old(self).lease_info,
            slots.1 == old(self).deposit_balance,
            final(self)@ == VaultState::empty(),
    {
        let mut held = LeaseVault::new();
        core::mem::swap(self, &mut held);
        let LeaseVault { lease_info, deposit_balance } = held;
        (lease_info, deposit_balance)
    }
}

} // verus!
