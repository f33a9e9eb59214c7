//! Deposit into and withdrawal from the holding account of an active record.

use crate::access::{access, authorize, vault_authority};
use crate::address::Address;
use crate::error::{ends_as, VaultError};
use crate::ledger::{transfer, Authority};
use crate::state::{balances_fit, check_balances, AccountInfo, RecordAccount};
use vstd::prelude::*;

verus! {

/// The accounts of a deposit or a withdrawal.
#[derive(Clone, Copy, Debug, PartialEq, Eq)]
pub struct Payment {
    /// The program under whose identity addresses are derived.
    pub program_id: Address,
    /// The caller, who must be the record's owner.
    pub user: AccountInfo,
    /// The owner's record.
    pub state: RecordAccount,
    /// The holding account.
    pub vault: AccountInfo,
}

impl Payment {
    /// The three balances fit the balance type together.
    pub open spec fn well_formed(self) -> bool {
        balances_fit(self.user.lamports, self.state.lamports, self.vault.lamports)
    }

    /// Whether the accounts are well formed.
    pub fn is_well_formed(&self) -> (ok: bool)
        ensures
            ok == self.well_formed(),
    {
        check_balances(self.user.lamports, self.state.lamports, self.vault.lamports)
    }

    /// Whether the request may act on the record, and the failure if not.
    pub open spec fn access(self) -> Result<(), VaultError> {
        access(self.program_id@, self.user, self.state, self.vault)
    }

    /// The accounts after `amount` went from the user to the holding account.
    pub open spec fn deposited(self, amount: u64) -> Payment {
        Payment {
            user: AccountInfo { lamports: (self.user.lamports - amount) as u64, ..self.user },
            vault: AccountInfo { lamports: (self.vault.lamports + amount) as u64, ..self.vault },
            ..self
        }
    }

    /// The accounts after `amount` went from the holding account to the user.
    pub open spec fn withdrawn(self, amount: u64) -> Payment {
        Payment {
            user: AccountInfo { lamports: (self.user.lamports + amount) as u64, ..self.user },
            vault: AccountInfo { lamports: (self.vault.lamports - amount) as u64, ..self.vault },
            ..self
        }
    }

    /// What a deposit of `amount` ends in: the accounts afterwards, or the
    /// failure.
    pub open spec fn deposit_outcome(self, amount: u64) -> Result<Payment, VaultError> {
        match self.access() {
            Err(e) => Err(e),
            Ok(_) => if self.user.lamports < amount {
                Err(VaultError::InsufficientBalance)
            } else {
                Ok(self.deposited(amount))
            },
        }
    }

    /// What a withdrawal of `amount` ends in: the accounts afterwards, or the
    /// failure.
    pub open spec fn withdraw_outcome(self, amount: u64) -> Result<Payment, VaultError> {
        match self.access() {
            Err(e) => Err(e),
            Ok(_) => if self.vault.lamports < amount {
                Err(VaultError::InsufficientBalance)
            } else {
                Ok(self.withdrawn(amount))
            },
        }
    }

    /// Moves `amount` from the owner's balance into the holding account.
    ///
    /// The request is authorized first. An amount of zero is a transfer like
    /// any other and succeeds. A failed deposit changes nothing.
    pub fn deposit(&mut self, amount: u64) -> (r: Result<(), VaultError>)
        requires
            old(self).well_formed(),
        ensures
            ends_as(old(self).deposit_outcome(amount), *old(self), *final(self), r),
            final(self).well_formed(),
    {
        match authorize(&self.program_id, &self.user, &self.state, &self.vault) {
            Err(e) => Err(e),
            Ok(_) => {
                let authority = Authority::OwnerSigned(self.user.key);
                transfer(&self.program_id, &mut self.user, &mut self.vault, amount, &authority)
            },
        }
    }

    /// Moves `amount` from the holding account to the owner, on the authority
    /// of the holding account's derivation.
    ///
    /// The request is authorized first. It fails where `amount` exceeds the
    /// holding account's balance. A failed withdrawal changes nothing.
    pub fn withdraw(&mut self, amount: u64) -> (r: Result<(), VaultError>)
        requires
            old(self).well_formed(),
        ensures
            ends_as(old(self).withdraw_outcome(amount), *old(self), *final(self), r),
            final(self).well_formed(),
    {
        match authorize(&self.program_id, &self.user, &self.state, &self.vault) {
            Err(e) => Err(e),
            Ok(_) => {
                let authority = vault_authority(&self.state);
                transfer(&self.program_id, &mut self.vault, &mut self.user, amount, &authority)
            },
        }
    }
}

} // verus!
