//! The rule that guards every operation on an existing record: the caller
//! signed, the record is active and was derived from the caller's identity,
//! and the holding account is the one derived from the record.

use crate::address::Address;
use crate::derivation::{address_at, verify, STATE_TAG, VAULT_TAG};
use crate::error::VaultError;
use crate::ledger::Authority;
use crate::state::{AccountInfo, Lifecycle, RecordAccount};
use vstd::prelude::*;
use vstd::slice::slice_to_vec;

verus! {

/// The record's address is the one derived from the user's identity and the
/// nonce that the record stores: the user is the record's owner.
pub open spec fn owner_matches(
    program_id: Seq<u8>,
    user: AccountInfo,
    state: RecordAccount,
) -> bool {
    address_at(program_id, STATE_TAG@, user.key@, state.data.state_bump) == Some(state.key@)
}

/// The holding account's address is the one derived from the record's
/// address and the nonce that the record stores.
pub open spec fn vault_matches(
    program_id: Seq<u8>,
    state: RecordAccount,
    vault: AccountInfo,
) -> bool {
    address_at(program_id, VAULT_TAG@, state.key@, state.data.vault_bump) == Some(vault.key@)
}

/// The rule itself, over what has been found out about a request.
///
/// A request that is unsigned, names a record that is not active, or comes
/// from another identity than the record's owner fails as unauthorized,
/// whatever else holds of it. An authorized request that names another
/// holding account than the derived one fails as a derivation mismatch.
pub open spec fn access_verdict(
    signed: bool,
    lifecycle: Lifecycle,
    owner_ok: bool,
    vault_ok: bool,
) -> Result<(), VaultError> {
    if !signed || lifecycle != Lifecycle::Active || !owner_ok {
        Err(VaultError::AuthorizationFailure)
    } else if !vault_ok {
        Err(VaultError::DerivationMismatch)
    } else {
        Ok(())
    }
}

/// The rule applied to the accounts of a request.
pub open spec fn access(
    program_id: Seq<u8>,
    user: AccountInfo,
    state: RecordAccount,
    vault: AccountInfo,
) -> Result<(), VaultError> {
    access_verdict(
        user.is_signer,
        state.lifecycle,
        owner_matches(program_id, user, state),
        vault_matches(program_id, state, vault),
    )
}

/// Decides a request from what has been found out about it.
pub fn check_access(
    signed: bool,
    lifecycle: Lifecycle,
    owner_ok: bool,
    vault_ok: bool,
) -> (r: Result<(), VaultError>)
    ensures
        r == access_verdict(signed, lifecycle, owner_ok, vault_ok),
{
    if !signed {
        return Err(VaultError::AuthorizationFailure);
    }
    match lifecycle {
        Lifecycle::Active => {
            if !owner_ok {
                Err(VaultError::AuthorizationFailure)
            } else if !vault_ok {
                Err(VaultError::DerivationMismatch)
            } else {
                Ok(())
            }
        },
        _ => Err(VaultError::AuthorizationFailure),
    }
}

/// Derives both addresses again from the stored nonces and decides the
/// request.
pub fn authorize(
    program_id: &Address,
    user: &AccountInfo,
    state: &RecordAccount,
    vault: &AccountInfo,
) -> (r: Result<(), VaultError>)
    ensures
        r == access(program_id@, *user, *state, *vault),
{
    let owner_ok = verify(
        program_id,
        STATE_TAG.as_slice(),
        &user.key,
        state.data.state_bump,
        &state.key,
    );
    let vault_ok = verify(
        program_id,
        VAULT_TAG.as_slice(),
        &state.key,
        state.data.vault_bump,
        &vault.key,
    );
    check_access(user.is_signer, state.lifecycle, owner_ok, vault_ok)
}

/// The proof of authority over a record's holding account: the inputs from
/// which the holding account's address is derived.
pub fn vault_authority(state: &RecordAccount) -> (authority: Authority)
    ensures
        authority.presents(VAULT_TAG@, state.key@, state.data.vault_bump),
{
    Authority::DerivedAuthority {
        tag: slice_to_vec(VAULT_TAG.as_slice()),
        input: state.key,
        nonce: state.data.vault_bump,
    }
}

} // verus!
