//! The accounts an operation works on, held as plain values.

use crate::address::Address;
use vstd::prelude::*;

verus! {

/// What a record stores: the two nonces from which its own address and the
/// address of its holding account are derived again.
#[derive(Clone, Copy, Debug, PartialEq, Eq, Structural)]
pub struct VaultState {
    /// Nonce of the holding account's address, derived from the record's address.
    pub vault_bump: u8,
    /// Nonce of the record's address, derived from the owner's identity.
    pub state_bump: u8,
}

impl VaultState {
    /// Bytes that the stored fields take.
    pub const INIT_SPACE: usize = 2;

    /// The content of storage that has not been written.
    pub open spec fn blank() -> VaultState {
        VaultState { vault_bump: 0, state_bump: 0 }
    }
}

/// Where a record stands in its life. It is created once and destroyed once.
#[derive(Clone, Copy, Debug, PartialEq, Eq, Structural)]
pub enum Lifecycle {
    Uninitialized,
    Active,
    Closed,
}

/// An account that holds a balance: an owner's or a holding account.
#[derive(Clone, Copy, Debug, PartialEq, Eq)]
pub struct AccountInfo {
    pub key: Address,
    /// Whether the holder of `key` signed the request.
    pub is_signer: bool,
    pub lamports: u64,
}

/// The account of a record: its storage, and the balance that pays for it.
#[derive(Clone, Copy, Debug, PartialEq, Eq)]
pub struct RecordAccount {
    pub key: Address,
    pub lamports: u64,
    pub lifecycle: Lifecycle,
    pub data: VaultState,
}

/// The balances of a user, a record and a holding account are part of one
/// ledger, whose total fits the balance type.
pub open spec fn balances_fit(user: u64, record: u64, vault: u64) -> bool {
    user + record + vault <= u64::MAX
}

/// Whether three balances fit the balance type together.
pub fn check_balances(user: u64, record: u64, vault: u64) -> (ok: bool)
    ensures
        ok == balances_fit(user, record, vault),
{
    match user.checked_add(record) {
        Some(sum) => sum.checked_add(vault).is_some(),
        None => false,
    }
}

} // verus!
