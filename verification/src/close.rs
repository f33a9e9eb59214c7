//! Closing a record: the holding account is emptied to the owner and the
//! record is destroyed.

use crate::access::{access, authorize, vault_authority};
use crate::address::Address;
use crate::error::{ends_as, VaultError};
use crate::ledger::transfer;
use crate::state::{
    balances_fit, check_balances, AccountInfo, Lifecycle, RecordAccount, VaultState,
};
use vstd::prelude::*;

verus! {

/// The accounts of a close.
#[derive(Clone, Copy, Debug, PartialEq, Eq)]
pub struct Close {
    /// The program under whose identity addresses are derived.
    pub program_id: Address,
    /// The caller, who must be the record's owner.
    pub user: AccountInfo,
    /// The owner's record.
    pub state: RecordAccount,
    /// The holding account.
    pub vault: AccountInfo,
}

impl Close {
    /// The three balances fit the balance type together.
    pub open spec fn well_formed(self) -> bool {
        balances_fit(self.user.lamports, self.state.lamports, self.vault.lamports)
    }

    /// Whether the accounts are well formed.
    pub fn is_well_formed(&self) -> (ok: bool)
        ensures
            ok == self.well_formed(),
    {
        check_balances(self.user.lamports, self.state.lamports, self.vault.lamports)
    }

    /// Whether the request may act on the record, and the failure if not.
    pub open spec fn access(self) -> Result<(), VaultError> {
        access(self.program_id@, self.user, self.state, self.vault)
    }

    /// The accounts after the close: the user holds what the holding account
    /// held and what paid for the record's storage; the holding account is
    /// empty; the record is destroyed.
    pub open spec fn closed(self) -> Close {
        Close {
            user: AccountInfo {
                lamports: (self.user.lamports + self.vault.lamports + self.state.lamports) as u64,
                ..self.user
            },
            state: RecordAccount {
                lamports: 0,
                lifecycle: Lifecycle::Closed,
                data: VaultState::blank(),
                ..self.state
            },
            vault: AccountInfo { lamports: 0, ..self.vault },
            ..self
        }
    }

    /// What a close ends in: the accounts afterwards, or the failure.
    pub open spec fn close_outcome(self) -> Result<Close, VaultError> {
        match self.access() {
            Err(e) => Err(e),
            Ok(_) => Ok(self.closed()),
        }
    }

    /// Moves the whole balance of the holding account to the owner, on the
    /// authority of the holding account's derivation, then destroys the
    /// record and hands the cost of its storage back to the owner.
    ///
    /// The request is authorized first. The amount is the holding account's
    /// balance at the call, also where that is zero. A failed close changes
    /// nothing.
    pub fn close(&mut self) -> (r: Result<(), VaultError>)
        requires
            old(self).well_formed(),
        ensures
            ends_as(old(self).close_outcome(), *old(self), *final(self), r),
            final(self).well_formed(),
    {
        match authorize(&self.program_id, &self.user, &self.state, &self.vault) {
            Err(e) => Err(e),
            Ok(_) => {
                let authority = vault_authority(&self.state);
                let amount = self.vault.lamports;
                match transfer(
                    &self.program_id,
                    &mut self.vault,
                    &mut self.user,
                    amount,
                    &authority,
                ) {
                    Err(e) => Err(e),
                    Ok(_) => {
                        self.user.lamports = self.user.lamports + self.state.lamports;
                        self.state.lamports = 0;
                        self.state.lifecycle = Lifecycle::Closed;
                        self.state.data = VaultState { vault_bump: 0, state_bump: 0 };
                        Ok(())
                    },
                }
            },
        }
    }
}

} // verus!
