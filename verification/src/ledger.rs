//! The ledger's transfer of balance between two accounts, and the proof of
//! authority over the paying account that it asks for.

use crate::address::Address;
use crate::derivation::{address_at, verify};
use crate::error::{ends_as, VaultError};
use crate::state::AccountInfo;
use vstd::prelude::*;

verus! {

/// Proof of authority over the account that a transfer takes from.
#[derive(Debug, PartialEq, Eq)]
pub enum Authority {
    /// The holder of this identity signed.
    OwnerSigned(Address),
    /// The paying account is keyless: its address is the one derived from
    /// these inputs.
    DerivedAuthority { tag: Vec<u8>, input: Address, nonce: u8 },
}

impl Authority {
    /// Whether the proof gives authority over `from` under `program_id`.
    pub open spec fn permits(self, program_id: Seq<u8>, from: AccountInfo) -> bool {
        match self {
            Authority::OwnerSigned(identity) => identity@ == from.key@ && from.is_signer,
            Authority::DerivedAuthority { tag, input, nonce } => {
                address_at(program_id, tag@, input@, nonce) == Some(from.key@)
            },
        }
    }

    /// The proof presents the derivation inputs `tag`, `input` and `nonce`.
    pub open spec fn presents(self, tag: Seq<u8>, input: Seq<u8>, nonce: u8) -> bool {
        match self {
            Authority::OwnerSigned(_) => false,
            Authority::DerivedAuthority { tag: t, input: i, nonce: n } => {
                t@ == tag && i@ == input && n == nonce
            },
        }
    }

    /// The failure that a transfer ends in where the proof does not hold.
    pub open spec fn refusal(self) -> VaultError {
        match self {
            Authority::OwnerSigned(_) => VaultError::AuthorizationFailure,
            Authority::DerivedAuthority { .. } => VaultError::DerivationMismatch,
        }
    }

    /// What a transfer from `from` is told: go ahead, or the failure.
    pub open spec fn permit(
        self,
        program_id: Seq<u8>,
        from: AccountInfo,
    ) -> Result<(), VaultError> {
        if self.permits(program_id, from) {
            Ok(())
        } else {
            Err(self.refusal())
        }
    }

    /// Checks the proof against the paying account.
    pub fn check(&self, program_id: &Address, from: &AccountInfo) -> (r: Result<(), VaultError>)
        ensures
            r == self.permit(program_id@, *from),
    {
        match self {
            Authority::OwnerSigned(identity) => {
                if from.is_signer && identity.same(&from.key) {
                    Ok(())
                } else {
                    Err(VaultError::AuthorizationFailure)
                }
            },
            Authority::DerivedAuthority { tag, input, nonce } => {
                if verify(program_id, tag.as_slice(), input, *nonce, &from.key) {
                    Ok(())
                } else {
                    Err(VaultError::DerivationMismatch)
                }
            },
        }
    }
}

/// `account` with its balance set to `lamports`.
pub open spec fn with_lamports(account: AccountInfo, lamports: int) -> AccountInfo {
    AccountInfo { lamports: lamports as u64, ..account }
}

/// The outcome of moving `amount` from `from` to `to` under `permit`: the two
/// accounts afterwards, or the failure.
pub open spec fn transfer_outcome(
    from: AccountInfo,
    to: AccountInfo,
    amount: u64,
    permit: Result<(), VaultError>,
) -> Result<(AccountInfo, AccountInfo), VaultError> {
    match permit {
        Err(e) => Err(e),
        Ok(_) => if from.lamports < amount {
            Err(VaultError::InsufficientBalance)
        } else {
            Ok(
                (
                    with_lamports(from, from.lamports - amount),
                    with_lamports(to, to.lamports + amount),
                ),
            )
        },
    }
}

/// Moves `amount` from `from` to `to` once authority has been decided.
///
/// A refused permit is passed on; a balance that does not cover `amount`
/// fails; both leave the accounts as they were.
pub fn settle(
    from: &mut AccountInfo,
    to: &mut AccountInfo,
    amount: u64,
    permit: Result<(), VaultError>,
) -> (r: Result<(), VaultError>)
    requires
        old(from).lamports + old(to).lamports <= u64::MAX,
    ensures
        ends_as(
            transfer_outcome(*old(from), *old(to), amount, permit),
            (*old(from), *old(to)),
            (*final(from), *final(to)),
            r,
        ),
{
    match permit {
        Err(e) => Err(e),
        Ok(_) => {
            if from.lamports < amount {
                Err(VaultError::InsufficientBalance)
            } else {
                from.lamports = from.lamports - amount;
                to.lamports = to.lamports + amount;
                Ok(())
            }
        },
    }
}

/// The ledger's transfer: moves `amount` from `from` to `to` if `authority`
/// gives authority over `from` and `from` holds that much.
pub fn transfer(
    program_id: &Address,
    from: &mut AccountInfo,
    to: &mut AccountInfo,
    amount: u64,
    authority: &Authority,
) -> (r: Result<(), VaultError>)
    requires
        old(from).lamports + old(to).lamports <= u64::MAX,
    ensures
        ends_as(
            transfer_outcome(
                *old(from),
                *old(to),
                amount,
                authority.permit(program_id@, *old(from)),
            ),
            (*old(from), *old(to)),
            (*final(from), *final(to)),
            r,
        ),
{
    let permit = authority.check(program_id, from);
    settle(from, to, amount, permit)
}

} // verus!
