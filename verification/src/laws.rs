//! Laws of the vault's state machine, proved about the model.
//!
//! The operations of [`LeaseVault`](crate::vault::LeaseVault) are specified by
//! the functions of [`VaultState`], so each law here holds of the vault itself.

use vstd::prelude::*;
use crate::lease::{DataKey, LeaseError, LeaseRecord, LeaseState};
use crate::model::VaultState;

verus! {

impl VaultState {
    /// A vault that was never initialized is consistent, answers zero for its
    /// balance and `NotInitialized` for its lease record, and refuses a
    /// release.
    pub proof fn lemma_empty()
        ensures
            VaultState::empty().consistent(),
            VaultState::empty().balance() == 0,
            VaultState::empty().lease_info_result() == Err::<LeaseRecord, LeaseError>(
                LeaseError::NotInitialized,
            ),
            VaultState::empty().release_deposit_result() == Err::<(), LeaseError>(
                LeaseError::NotInitialized,
            ),
    {
    }

    /// After initializing, from any state and with any terms, the record holds
    /// the terms in stage `Created` and the balance is zero.
    pub proof fn lemma_initialize_then_query(self, terms: LeaseRecord)
        ensures
            self.after_initialize(terms).lease_info_result() == Ok::<LeaseRecord, LeaseError>(
                terms.with_state(LeaseState::Created),
            ),
            self.after_initialize(terms).lease_info_result()->Ok_0.state == LeaseState::Created,
            self.after_initialize(terms).balance() == 0,
    {
    }

    /// A deposit below the required amount, paid by the party it is made for,
    /// fails with `InsufficientDeposit` and changes neither record nor balance.
    pub proof fn lemma_deposit_below_required(self, from: Seq<char>, amount: int)
        requires
            self.lease_info is Some,
            amount < self.lease_info->0.deposit_amount,
        ensures
            self.deposit_result(from, from, amount) == Err::<(), LeaseError>(
                LeaseError::InsufficientDeposit,
            ),
            self.after_deposit(from, from, amount) == self,
    {
    }

    /// A deposit that reaches the required amount, paid by the party it is made
    /// for, succeeds in every stage of the lease: the balance becomes the
    /// amount paid and the lease becomes `DepositPaid`, its terms unchanged.
    pub proof fn lemma_deposit_sufficient(self, from: Seq<char>, amount: int)
        requires
            self.lease_info is Some,
            amount >= self.lease_info->0.deposit_amount,
        ensures
            self.deposit_result(from, from, amount) is Ok,
            self.after_deposit(from, from, amount).balance() == amount,
            self.after_deposit(from, from, amount).lease_info_result() == Ok::<
                LeaseRecord,
                LeaseError,
            >(self.lease_info->0.with_state(LeaseState::DepositPaid)),
    {
    }

    /// A deposit by anyone but the party it is made for fails with
    /// `Unauthorized` and changes nothing, whatever the vault holds and
    /// whatever the amount.
    pub proof fn lemma_deposit_by_other(self, caller: Seq<char>, from: Seq<char>, amount: int)
        requires
            caller != from,
        ensures
            self.deposit_result(caller, from, amount) == Err::<(), LeaseError>(
                LeaseError::Unauthorized,
            ),
            self.after_deposit(caller, from, amount) == self,
    {
    }

    /// A confirmation by anyone but the landlord of the lease fails with
    /// `Unauthorized` and changes nothing, whichever party the caller names.
    pub proof fn lemma_confirm_by_other(self, caller: Seq<char>, landlord: Seq<char>)
        requires
            self.lease_info is Some,
            caller != self.lease_info->0.landlord,
        ensures
            self.confirm_move_in_result(caller, landlord) == Err::<(), LeaseError>(
                LeaseError::Unauthorized,
            ),
            self.after_confirm_move_in(caller, landlord) == self,
    {
    }

    /// A confirmation by the landlord of the lease succeeds in every stage: the
    /// lease becomes `Active` and the balance stays as it is.
    pub proof fn lemma_confirm_by_landlord(self)
        requires
            self.lease_info is Some,
        ensures
            ({
                let landlord = self.lease_info->0.landlord;
                let next = self.after_confirm_move_in(landlord, landlord);
                &&& self.confirm_move_in_result(landlord, landlord) is Ok
                &&& next.lease_info == Some(self.lease_info->0.with_state(LeaseState::Active))
                &&& next.deposit_balance == self.deposit_balance
            }),
    {
    }

    /// Releasing the deposit of an initialized vault succeeds in every stage,
    /// leaves the balance at zero and the lease `Closed`, and releasing again
    /// succeeds and leaves the same state.
    pub proof fn lemma_release_idempotent(self)
        requires
            self.lease_info is Some,
            self.deposit_balance is Some,
        ensures
            ({
                let once = self.after_release_deposit();
                let twice = once.after_release_deposit();
                &&& self.release_deposit_result() is Ok
                &&& once.balance() == 0
                &&& once.lease_info == Some(self.lease_info->0.with_state(LeaseState::Closed))
                &&& once.release_deposit_result() is Ok
                &&& twice == once
            }),
    {
    }

    /// The path of a lease that runs its course: initialized, paid by the
    /// tenant, confirmed by the landlord and released, it passes through
    /// `Created`, `DepositPaid`, `Active` and `Closed`, holding the amount paid
    /// from the deposit until the release.
    pub proof fn lemma_lifecycle(self, terms: LeaseRecord, amount: int)
        requires
            amount >= terms.deposit_amount,
        ensures
            ({
                let created = self.after_initialize(terms);
                let paid = created.after_deposit(terms.tenant, terms.tenant, amount);
                let active = paid.after_confirm_move_in(terms.landlord, terms.landlord);
                let closed = active.after_release_deposit();
                &&& created.lease_info == Some(terms.with_state(LeaseState::Created))
                &&& created.balance() == 0
                &&& created.deposit_result(terms.tenant, terms.tenant, amount) is Ok
                &&& paid.lease_info == Some(terms.with_state(LeaseState::DepositPaid))
                &&& paid.balance() == amount
                &&& paid.confirm_move_in_result(terms.landlord, terms.landlord) is Ok
                &&& active.lease_info == Some(terms.with_state(LeaseState::Active))
                &&& active.balance() == amount
                &&& active.release_deposit_result() is Ok
                &&& closed.lease_info == Some(terms.with_state(LeaseState::Closed))
                &&& closed.balance() == 0
            }),
    {
    }

    /// Every operation leads from a consistent state to a consistent state, and
    /// initializing leads to one from any state.
    pub proof fn lemma_consistent_preserved(
        self,
        terms: LeaseRecord,
        caller: Seq<char>,
        party: Seq<char>,
        amount: int,
    )
        ensures
            self.after_initialize(terms).consistent(),
            self.consistent() ==> self.after_deposit(caller, party, amount).consistent(),
            self.consistent() ==> self.after_confirm_move_in(caller, party).consistent(),
            self.consistent() ==> self.after_release_deposit().consistent(),
    {
    }

    /// Every consistent state is reached from an empty vault: by initializing
    /// with its terms, then, as its stage and balance ask, a deposit by the
    /// tenant, a confirmation by the landlord, or a release.
    pub proof fn lemma_consistent_is_reached(self)
        requires
            self.consistent(),
            self.lease_info is Some,
        ensures
            ({
                let record = self.lease_info->0;
                let balance = self.deposit_balance->0;
                let created = VaultState::empty().after_initialize(record);
                let paid = created.after_deposit(record.tenant, record.tenant, balance);
                match record.state {
                    LeaseState::Created => self == created,
                    LeaseState::DepositPaid => self == paid,
                    LeaseState::Active => self == (if balance == 0 {
                        created
                    } else {
                        paid
                    }).after_confirm_move_in(record.landlord, record.landlord),
                    LeaseState::Closed => self == created.after_release_deposit(),
                    LeaseState::InDispute => false,
                }
            }),
    {
    }

    /// In a consistent state the record and the balance are present together,
    /// the lease is not in dispute, and nothing is kept as evidence.
    pub proof fn lemma_consistent_shape(self, key: DataKey)
        requires
            self.consistent(),
        ensures
            self.lease_info is Some <==> self.deposit_balance is Some,
            self.lease_info is Some ==> self.lease_info->0.state != LeaseState::InDispute,
            key is Evidence ==> !self.holds(key),
    {
    }

    /// A refused operation changes nothing.
    pub proof fn lemma_refusal_changes_nothing(
        self,
        caller: Seq<char>,
        party: Seq<char>,
        amount: int,
    )
        ensures
            self.deposit_result(caller, party, amount) is Err ==> self.after_deposit(
                caller,
                party,
                amount,
            ) == self,
            self.confirm_move_in_result(caller, party) is Err ==> self.after_confirm_move_in(
                caller,
                party,
            ) == self,
            self.release_deposit_result() is Err ==> self.after_release_deposit() == self,
    {
    }
}

} // verus!
