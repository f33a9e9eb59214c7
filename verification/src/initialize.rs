//! Creating a record for an owner.

use crate::address::Address;
use crate::derivation::{nonce_for, nonce_to, STATE_TAG, VAULT_TAG};
use crate::error::{ends_as, VaultError};
use crate::state::{
    balances_fit, check_balances, AccountInfo, Lifecycle, RecordAccount, VaultState,
};
use vstd::prelude::*;

verus! {

/// The accounts of a creation.
#[derive(Clone, Copy, Debug, PartialEq, Eq)]
pub struct Initialize {
    /// The program under whose identity addresses are derived.
    pub program_id: Address,
    /// What the ledger charges for the record's storage.
    pub rent: u64,
    /// The owner, who signs and pays for the record's storage.
    pub user: AccountInfo,
    /// The account that the record is created in.
    pub state: RecordAccount,
    /// The holding account.
    pub vault: AccountInfo,
}

/// The rule of creation, over what has been found out about a request: what
/// the new record stores, or the failure.
///
/// The owner must have signed. The derivations must have yielded the record's
/// and the holding account's addresses, each with its nonce. No record may
/// have been created at the address before. The owner must hold the cost of
/// the storage. The first of these that fails names the failure.
pub open spec fn creation_verdict(
    signed: bool,
    record_nonce: Option<u8>,
    vault_nonce: Option<u8>,
    lifecycle: Lifecycle,
    funds: u64,
    rent: u64,
) -> Result<VaultState, VaultError> {
    if !signed {
        Err(VaultError::AuthorizationFailure)
    } else if record_nonce is None || vault_nonce is None {
        Err(VaultError::DerivationMismatch)
    } else if lifecycle != Lifecycle::Uninitialized {
        Err(VaultError::DuplicateRecord)
    } else if funds < rent {
        Err(VaultError::AllocationFailure)
    } else {
        Ok(VaultState { vault_bump: vault_nonce->Some_0, state_bump: record_nonce->Some_0 })
    }
}

/// Decides a creation from what has been found out about it.
pub fn check_creation(
    signed: bool,
    record_nonce: Option<u8>,
    vault_nonce: Option<u8>,
    lifecycle: Lifecycle,
    funds: u64,
    rent: u64,
) -> (r: Result<VaultState, VaultError>)
    ensures
        r == creation_verdict(signed, record_nonce, vault_nonce, lifecycle, funds, rent),
{
    if !signed {
        return Err(VaultError::AuthorizationFailure);
    }
    match (record_nonce, vault_nonce) {
        (Some(state_bump), Some(vault_bump)) => match lifecycle {
            Lifecycle::Uninitialized => {
                if funds < rent {
                    Err(VaultError::AllocationFailure)
                } else {
                    Ok(VaultState { vault_bump, state_bump })
                }
            },
            _ => Err(VaultError::DuplicateRecord),
        },
        _ => Err(VaultError::DerivationMismatch),
    }
}

impl Initialize {
    /// The three balances fit the balance type together.
    pub open spec fn well_formed(self) -> bool {
        balances_fit(self.user.lamports, self.state.lamports, self.vault.lamports)
    }

    /// Whether the accounts are well formed.
    pub fn is_well_formed(&self) -> (ok: bool)
        ensures
            ok == self.well_formed(),
    {
        check_balances(self.user.lamports, self.state.lamports, self.vault.lamports)
    }

    /// The nonce with which the record's address is derived from the owner's
    /// identity; `None` where the derivation does not yield that address.
    pub open spec fn record_nonce(self) -> Option<u8> {
        nonce_to(self.program_id@, STATE_TAG@, self.user.key@, self.state.key@)
    }

    /// The nonce with which the holding account's address is derived from the
    /// record's address; `None` where the derivation does not yield that
    /// address.
    pub open spec fn vault_nonce(self) -> Option<u8> {
        nonce_to(self.program_id@, VAULT_TAG@, self.state.key@, self.vault.key@)
    }

    /// What the new record stores, or the failure.
    pub open spec fn verdict(self) -> Result<VaultState, VaultError> {
        creation_verdict(
            self.user.is_signer,
            self.record_nonce(),
            self.vault_nonce(),
            self.state.lifecycle,
            self.user.lamports,
            self.rent,
        )
    }

    /// The accounts after the creation: the owner has paid for the storage,
    /// the record is active and stores `data`. The holding account is as it
    /// was.
    pub open spec fn created(self, data: VaultState) -> Initialize {
        Initialize {
            user: AccountInfo { lamports: (self.user.lamports - self.rent) as u64, ..self.user },
            state: RecordAccount {
                lamports: (self.state.lamports + self.rent) as u64,
                lifecycle: Lifecycle::Active,
                data,
                ..self.state
            },
            ..self
        }
    }

    /// What a creation ends in: the accounts afterwards, or the failure.
    pub open spec fn initialize_outcome(self) -> Result<Initialize, VaultError> {
        match self.verdict() {
            Err(e) => Err(e),
            Ok(data) => Ok(self.created(data)),
        }
    }

    /// Creates the owner's record and stores in it the two nonces.
    ///
    /// The record's address is derived afresh from the owner's identity and
    /// the holding account's address from the record's; the accounts must be
    /// the ones that come out. The owner pays for the storage; the holding
    /// account's balance does not change. A failed creation changes nothing.
    pub fn initialize(&mut self) -> (r: Result<(), VaultError>)
        requires
            old(self).well_formed(),
        ensures
            ends_as(old(self).initialize_outcome(), *old(self), *final(self), r),
            final(self).well_formed(),
    {
        let record_nonce = nonce_for(
            &self.program_id,
            STATE_TAG.as_slice(),
            &self.user.key,
            &self.state.key,
        );
        let vault_nonce = nonce_for(
            &self.program_id,
            VAULT_TAG.as_slice(),
            &self.state.key,
            &self.vault.key,
        );
        match check_creation(
            self.user.is_signer,
            record_nonce,
            vault_nonce,
            self.state.lifecycle,
            self.user.lamports,
            self.rent,
        ) {
            Err(e) => Err(e),
            Ok(data) => {
                self.user.lamports = self.user.lamports - self.rent;
                self.state.lamports = self.state.lamports + self.rent;
                self.state.lifecycle = Lifecycle::Active;
                self.state.data = data;
                Ok(())
            },
        }
    }
}

} // verus!
