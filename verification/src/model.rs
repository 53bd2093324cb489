//! The vault as a mathematical state machine.
//!
//! A [`VaultState`] is what a vault holds: the lease record and the balance,
//! each present or absent. Every operation of the vault is given here as a pair
//! of functions on states, one for its outcome and one for the state it leaves,
//! and the laws that relate the operations are proved about these functions.

use vstd::prelude::*;
use crate::lease::{DataKey, LeaseError, LeaseInfo, LeaseRecord, LeaseState};

verus! {

/// What a vault holds: the lease record and the balance in escrow, each in a
/// slot of its own that is empty until the vault is initialized.
pub struct VaultState {
    pub lease_info: Option<LeaseRecord>,
    pub deposit_balance: Option<int>,
}

impl VaultState {
    /// The state of a vault that was never initialized.
    pub open spec fn empty() -> VaultState {
        VaultState { lease_info: None, deposit_balance: None }
    }

    /// The state that holds the given slots.
    pub open spec fn of_slots(
        lease_info: Option<LeaseInfo>,
        deposit_balance: Option<i128>,
    ) -> VaultState {
        VaultState {
            lease_info: match lease_info {
                Some(info) => Some(info@),
                None => None,
            },
            deposit_balance: match deposit_balance {
                Some(balance) => Some(balance as int),
                None => None,
            },
        }
    }

    /// Whether something is kept under `key`. Nothing ever is under an
    /// `Evidence` key.
    pub open spec fn holds(self, key: DataKey) -> bool {
        match key {
            DataKey::LeaseInfo => self.lease_info is Some,
            DataKey::DepositBalance => self.deposit_balance is Some,
            DataKey::Evidence(_) => false,
        }
    }

    /// The states that the operations can reach from an empty vault, and no
    /// others: the record and the balance are present together; the lease is
    /// never in dispute; nothing is held while the lease is `Created` or
    /// `Closed`; while it is `DepositPaid` the balance covers the required
    /// deposit; and while it is `Active` the balance covers it or is zero.
    pub open spec fn consistent(self) -> bool {
        match (self.lease_info, self.deposit_balance) {
            (None, None) => true,
            (Some(record), Some(balance)) => match record.state {
                LeaseState::Created | LeaseState::Closed => balance == 0,
                LeaseState::DepositPaid => balance >= record.deposit_amount,
                LeaseState::Active => balance == 0 || balance >= record.deposit_amount,
                LeaseState::InDispute => false,
            },
            _ => false,
        }
    }

    /// The state after initializing with `terms`: the record holds the terms in
    /// stage `Created` and the balance is zero, whatever was held before.
    pub open spec fn after_initialize(self, terms: LeaseRecord) -> VaultState {
        VaultState {
            lease_info: Some(terms.with_state(LeaseState::Created)),
            deposit_balance: Some(0),
        }
    }

    /// The outcome of `caller` paying `amount` in the name of `from`.
    ///
    /// The caller must be `from`; then a record must exist; then the amount must
    /// reach the required deposit. The first test that fails gives the error.
    pub open spec fn deposit_result(
        self,
        caller: Seq<char>,
        from: Seq<char>,
        amount: int,
    ) -> Result<(), LeaseError> {
        if caller != from {
            Err(LeaseError::Unauthorized)
        } else {
            match self.lease_info {
                None => Err(LeaseError::NotInitialized),
                Some(record) => if amount < record.deposit_amount {
                    Err(LeaseError::InsufficientDeposit)
                } else {
                    Ok(())
                },
            }
        }
    }

    /// The state after that deposit: when it is accepted the balance is
    /// `amount`, replacing what was held, and the lease is `DepositPaid`;
    /// when it is refused nothing changes.
    pub open spec fn after_deposit(
        self,
        caller: Seq<char>,
        from: Seq<char>,
        amount: int,
    ) -> VaultState {
        match (self.deposit_result(caller, from, amount), self.lease_info) {
            (Ok(_), Some(record)) => VaultState {
                lease_info: Some(record.with_state(LeaseState::DepositPaid)),
                deposit_balance: Some(amount),
            },
            _ => self,
        }
    }

    /// The outcome of `caller` confirming the move-in as `landlord`.
    ///
    /// The caller must be `landlord`; then a record must exist; then `landlord`
    /// must be the landlord of the record. The first test that fails gives the
    /// error.
    pub open spec fn confirm_move_in_result(
        self,
        caller: Seq<char>,
        landlord: Seq<char>,
    ) -> Result<(), LeaseError> {
        if caller != landlord {
            Err(LeaseError::Unauthorized)
        } else {
            match self.lease_info {
                None => Err(LeaseError::NotInitialized),
                Some(record) => if landlord != record.landlord {
                    Err(LeaseError::Unauthorized)
                } else {
                    Ok(())
                },
            }
        }
    }

    /// The state after that confirmation: when it is accepted the lease is
    /// `Active` and the balance is untouched; when it is refused nothing
    /// changes.
    pub open spec fn after_confirm_move_in(
        self,
        caller: Seq<char>,
        landlord: Seq<char>,
    ) -> VaultState {
        match (self.confirm_move_in_result(caller, landlord), self.lease_info) {
            (Ok(_), Some(record)) => VaultState {
                lease_info: Some(record.with_state(LeaseState::Active)),
                ..self
            },
            _ => self,
        }
    }

    /// The outcome of releasing the deposit: it needs a record and a balance,
    /// and nothing else.
    pub open spec fn release_deposit_result(self) -> Result<(), LeaseError> {
        if self.lease_info is Some && self.deposit_balance is Some {
            Ok(())
        } else {
            Err(LeaseError::NotInitialized)
        }
    }

    /// The state after the release: when it is accepted the balance is zero and
    /// the lease is `Closed`; when it is refused nothing changes.
    pub open spec fn after_release_deposit(self) -> VaultState {
        match (self.release_deposit_result(), self.lease_info) {
            (Ok(_), Some(record)) => VaultState {
                lease_info: Some(record.with_state(LeaseState::Closed)),
                deposit_balance: Some(0),
            },
            _ => self,
        }
    }

    /// What a query for the lease record answers.
    pub open spec fn lease_info_result(self) -> Result<LeaseRecord, LeaseError> {
        match self.lease_info {
            Some(record) => Ok(record),
            None => Err(LeaseError::NotInitialized),
        }
    }

    /// What a query for the balance answers: the balance, or zero where none is
    /// kept.
    pub open spec fn balance(self) -> int {
        match self.deposit_balance {
            Some(balance) => balance,
            None => 0,
        }
    }
}

} // verus!
