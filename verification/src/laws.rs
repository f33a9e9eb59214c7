//! What holds of the operations taken together.
//!
//! A run is a sequence of operations that the owner asks for on the accounts
//! of one vault, each applied to what the one before left. An operation that
//! fails leaves the accounts as they were. The accounts of a run are held as
//! a creation takes them: the owner's account, the record's and the holding
//! account, with the cost of the record's storage.

use crate::access::{owner_matches, vault_matches};
use crate::close::Close;
use crate::derivation::{derived_is_the_largest, STATE_TAG, VAULT_TAG};
use crate::error::VaultError;
use crate::initialize::Initialize;
use crate::payment::Payment;
use crate::state::Lifecycle;
use vstd::prelude::*;

verus! {

/// One of the four operations, with its amount where it has one.
pub enum Operation {
    Create,
    Deposit(u64),
    Withdraw(u64),
    Close,
}

/// The accounts as a deposit or a withdrawal takes them.
pub open spec fn payment_on(accounts: Initialize) -> Payment {
    Payment {
        program_id: accounts.program_id,
        user: accounts.user,
        state: accounts.state,
        vault: accounts.vault,
    }
}

/// The accounts as a close takes them.
pub open spec fn close_on(accounts: Initialize) -> Close {
    Close {
        program_id: accounts.program_id,
        user: accounts.user,
        state: accounts.state,
        vault: accounts.vault,
    }
}

/// What `operation` ends in on `accounts`: the accounts afterwards, or the
/// failure.
pub open spec fn outcome(accounts: Initialize, operation: Operation) -> Result<
    Initialize,
    VaultError,
> {
    match operation {
        Operation::Create => accounts.initialize_outcome(),
        Operation::Deposit(amount) => match payment_on(accounts).deposit_outcome(amount) {
            Ok(after) => Ok(
                Initialize { user: after.user, state: after.state, vault: after.vault, ..accounts },
            ),
            Err(e) => Err(e),
        },
        Operation::Withdraw(amount) => match payment_on(accounts).withdraw_outcome(amount) {
            Ok(after) => Ok(
                Initialize { user: after.user, state: after.state, vault: after.vault, ..accounts },
            ),
            Err(e) => Err(e),
        },
        Operation::Close => match close_on(accounts).close_outcome() {
            Ok(after) => Ok(
                Initialize { user: after.user, state: after.state, vault: after.vault, ..accounts },
            ),
            Err(e) => Err(e),
        },
    }
}

/// The accounts after `operation` was tried on them.
pub open spec fn step(accounts: Initialize, operation: Operation) -> Initialize {
    match outcome(accounts, operation) {
        Ok(after) => after,
        Err(_) => accounts,
    }
}

/// The accounts after the operations were tried one after another.
pub open spec fn run(accounts: Initialize, operations: Seq<Operation>) -> Initialize
    decreases operations.len(),
{
    if operations.len() == 0 {
        accounts
    } else {
        step(run(accounts, operations.drop_last()), operations.last())
    }
}

/// Whether the last of the operations succeeded in the run.
pub open spec fn last_succeeded(accounts: Initialize, operations: Seq<Operation>) -> bool
    recommends
        operations.len() > 0,
{
    outcome(run(accounts, operations.drop_last()), operations.last()) is Ok
}

/// How many creations succeeded in the run.
pub open spec fn creations(accounts: Initialize, operations: Seq<Operation>) -> nat
    decreases operations.len(),
{
    if operations.len() == 0 {
        0
    } else {
        let earlier = creations(accounts, operations.drop_last());
        if operations.last() is Create && last_succeeded(accounts, operations) {
            earlier + 1
        } else {
            earlier
        }
    }
}

/// The sum of the deposits that succeeded in the run.
pub open spec fn sum_deposits(accounts: Initialize, operations: Seq<Operation>) -> int
    decreases operations.len(),
{
    if operations.len() == 0 {
        0
    } else {
        let earlier = sum_deposits(accounts, operations.drop_last());
        match operations.last() {
            Operation::Deposit(amount) => if last_succeeded(accounts, operations) {
                earlier + amount
            } else {
                earlier
            },
            _ => earlier,
        }
    }
}

/// The sum of the withdrawals that succeeded in the run.
pub open spec fn sum_withdrawals(accounts: Initialize, operations: Seq<Operation>) -> int
    decreases operations.len(),
{
    if operations.len() == 0 {
        0
    } else {
        let earlier = sum_withdrawals(accounts, operations.drop_last());
        match operations.last() {
            Operation::Withdraw(amount) => if last_succeeded(accounts, operations) {
                earlier + amount
            } else {
                earlier
            },
            _ => earlier,
        }
    }
}

/// Every one of the operations is a deposit or a withdrawal.
pub open spec fn only_movements(operations: Seq<Operation>) -> bool {
    forall|i: int|
        0 <= i < operations.len() ==> #[trigger] operations[i] is Deposit
            || operations[i] is Withdraw
}

/// Uniqueness, for a request that is repeated: once a creation has succeeded,
/// the same creation on the accounts it left fails as a duplicate.
pub proof fn second_create_is_duplicate(accounts: Initialize)
    requires
        accounts.initialize_outcome() is Ok,
    ensures
        accounts.initialize_outcome()->Ok_0.initialize_outcome() == Err::<Initialize, VaultError>(
            VaultError::DuplicateRecord,
        ),
{
}

/// Uniqueness, in every run: whatever the owner asks for and in whatever
/// order, at most one creation succeeds, and none where the record was
/// created before the run. The record never returns to the uninitialized
/// state.
pub proof fn create_succeeds_at_most_once(accounts: Initialize, operations: Seq<Operation>)
    ensures
        creations(accounts, operations) <= 1,
        accounts.state.lifecycle != Lifecycle::Uninitialized ==> creations(accounts, operations)
            == 0,
        creations(accounts, operations) == 1 || accounts.state.lifecycle
            != Lifecycle::Uninitialized ==> run(accounts, operations).state.lifecycle
            != Lifecycle::Uninitialized,
    decreases operations.len(),
{
    if operations.len() > 0 {
        create_succeeds_at_most_once(accounts, operations.drop_last());
    }
}

/// Uniqueness, for every owner: two creations for one owner under one program
/// can only name the same record and the same holding account. So a creation
/// that meets the record as an earlier one left it, no longer uninitialized,
/// fails; and it fails as a duplicate where the owner signed and named the
/// holding account that belongs to the record.
pub proof fn one_record_per_owner(first: Initialize, second: Initialize)
    requires
        first.initialize_outcome() is Ok,
        second.program_id@ == first.program_id@,
        second.user.key@ == first.user.key@,
        second.state.key@ == first.state.key@ ==> second.state.lifecycle
            != Lifecycle::Uninitialized,
    ensures
        second.record_nonce() is Some ==> second.state.key@ == first.state.key@
            && second.record_nonce() == first.record_nonce(),
        second.record_nonce() is Some && second.vault_nonce() is Some ==> second.vault.key@
            == first.vault.key@ && second.vault_nonce() == first.vault_nonce(),
        second.initialize_outcome() is Err,
        second.user.is_signer && second.state.key@ == first.state.key@ && second.vault.key@
            == first.vault.key@ ==> second.initialize_outcome() == Err::<Initialize, VaultError>(
            VaultError::DuplicateRecord,
        ),
{
}

/// Determinism of the stored nonces: the record that a creation leaves
/// derives again, from the nonces it stores, the record's own address from
/// the owner's identity and the holding account's address from the record's.
/// A signed request of the owner on these accounts is therefore authorized.
pub proof fn stored_nonces_rederive_addresses(accounts: Initialize)
    requires
        accounts.initialize_outcome() is Ok,
    ensures
        ({
            let after = accounts.initialize_outcome()->Ok_0;
            &&& owner_matches(after.program_id@, after.user, after.state)
            &&& vault_matches(after.program_id@, after.state, after.vault)
            &&& payment_on(after).access() is Ok
            &&& close_on(after).access() is Ok
        }),
{
    derived_is_the_largest(accounts.program_id@, STATE_TAG@, accounts.user.key@);
    derived_is_the_largest(accounts.program_id@, VAULT_TAG@, accounts.state.key@);
}

/// Conservation: after any sequence of deposits and withdrawals, the holding
/// account holds what it held before, plus the deposits and minus the
/// withdrawals that succeeded. What is withdrawn never exceeds what was there:
/// the balance does not go below zero. What the holding account gains the
/// owner loses, and the record is untouched.
pub proof fn conservation(accounts: Initialize, operations: Seq<Operation>)
    requires
        accounts.well_formed(),
        only_movements(operations),
    ensures
        run(accounts, operations).vault.lamports == accounts.vault.lamports + sum_deposits(
            accounts,
            operations,
        ) - sum_withdrawals(accounts, operations),
        sum_withdrawals(accounts, operations) <= accounts.vault.lamports + sum_deposits(
            accounts,
            operations,
        ),
        run(accounts, operations).user.lamports + run(accounts, operations).vault.lamports
            == accounts.user.lamports + accounts.vault.lamports,
        run(accounts, operations).state == accounts.state,
        run(accounts, operations).program_id == accounts.program_id,
        run(accounts, operations).user.key == accounts.user.key,
        run(accounts, operations).vault.key == accounts.vault.key,
        run(accounts, operations).well_formed(),
    decreases operations.len(),
{
    if operations.len() > 0 {
        conservation(accounts, operations.drop_last());
    }
}

/// Authorization: a deposit, a withdrawal or a close that is not signed, or
/// that comes from another identity than the one the record's address was
/// derived from, fails as unauthorized, whatever else holds of the request.
pub proof fn stranger_is_refused(payment: Payment, amount: u64, closing: Close)
    ensures
        !payment.user.is_signer || !owner_matches(payment.program_id@, payment.user, payment.state)
            ==> payment.deposit_outcome(amount) == Err::<Payment, VaultError>(
            VaultError::AuthorizationFailure,
        ) && payment.withdraw_outcome(amount) == Err::<Payment, VaultError>(
            VaultError::AuthorizationFailure,
        ),
        !closing.user.is_signer || !owner_matches(closing.program_id@, closing.user, closing.state)
            ==> closing.close_outcome() == Err::<Close, VaultError>(
            VaultError::AuthorizationFailure,
        ),
{
}

/// A close empties: the owner receives exactly what the holding account held
/// at the call, and with it what paid for the record's storage; the holding
/// account is left empty and the record is destroyed.
pub proof fn close_empties(accounts: Close)
    requires
        accounts.well_formed(),
        accounts.close_outcome() is Ok,
    ensures
        ({
            let after = accounts.close_outcome()->Ok_0;
            &&& after.vault.lamports == 0
            &&& after.user.lamports == accounts.user.lamports + accounts.vault.lamports
                + accounts.state.lamports
            &&& after.state.lamports == 0
            &&& after.state.lifecycle == Lifecycle::Closed
        }),
{
}

/// Where no record is active, before the creation or after the close, every
/// deposit, withdrawal and close fails as unauthorized.
pub proof fn inactive_record_refuses(payment: Payment, amount: u64, closing: Close)
    ensures
        payment.state.lifecycle != Lifecycle::Active ==> payment.deposit_outcome(amount) == Err::<
            Payment,
            VaultError,
        >(VaultError::AuthorizationFailure) && payment.withdraw_outcome(amount) == Err::<
            Payment,
            VaultError,
        >(VaultError::AuthorizationFailure),
        closing.state.lifecycle != Lifecycle::Active ==> closing.close_outcome() == Err::<
            Close,
            VaultError,
        >(VaultError::AuthorizationFailure),
{
}

/// The close is final: whatever is asked for after a close has succeeded
/// fails, and the accounts stay as the close left them.
pub proof fn nothing_follows_a_close(accounts: Close, later: Seq<Operation>, rent: u64)
    requires
        accounts.close_outcome() is Ok,
    ensures
        ({
            let after = accounts.close_outcome()->Ok_0;
            let left = Initialize {
                program_id: after.program_id,
                rent,
                user: after.user,
                state: after.state,
                vault: after.vault,
            };
            &&& run(left, later) == left
            &&& forall|i: int|
                0 <= i < later.len() ==> #[trigger] outcome(left, later[i]) is Err
        }),
    decreases later.len(),
{
    if later.len() > 0 {
        nothing_follows_a_close(accounts, later.drop_last(), rent);
    }
}

} // verus!
