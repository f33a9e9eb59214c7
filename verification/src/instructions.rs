//! The four operations of the vault, as a program offers them. Each hands
//! the accounts to the operation of their kind.

use crate::close::Close;
use crate::error::{ends_as, VaultError};
use crate::initialize::Initialize;
use crate::payment::Payment;
use vstd::prelude::*;

verus! {

/// Creates the owner's record, at the address derived from the owner's
/// identity, and stores in it the nonces of both derivations.
pub fn initialize(accounts: &mut Initialize) -> (r: Result<(), VaultError>)
    requires
        old(accounts).well_formed(),
    ensures
        ends_as(old(accounts).initialize_outcome(), *old(accounts), *final(accounts), r),
        final(accounts).well_formed(),
{
    accounts.initialize()
}

/// Moves `amount` from the owner into the holding account of the owner's
/// record.
pub fn deposit(accounts: &mut Payment, amount: u64) -> (r: Result<(), VaultError>)
    requires
        old(accounts).well_formed(),
    ensures
        ends_as(old(accounts).deposit_outcome(amount), *old(accounts), *final(accounts), r),
        final(accounts).well_formed(),
{
    accounts.deposit(amount)
}

/// Moves `amount` from the holding account of the owner's record to the
/// owner.
pub fn withdraw(accounts: &mut Payment, amount: u64) -> (r: Result<(), VaultError>)
    requires
        old(accounts).well_formed(),
    ensures
        ends_as(old(accounts).withdraw_outcome(amount), *old(accounts), *final(accounts), r),
        final(accounts).well_formed(),
{
    accounts.withdraw(amount)
}

/// Moves the whole balance of the holding account to the owner and destroys
/// the record.
pub fn close(accounts: &mut Close) -> (r: Result<(), VaultError>)
    requires
        old(accounts).well_formed(),
    ensures
        ends_as(old(accounts).close_outcome(), *old(accounts), *final(accounts), r),
        final(accounts).well_formed(),
{
    accounts.close()
}

} // verus!
