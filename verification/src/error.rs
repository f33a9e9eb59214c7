//! The failures an operation can end in.

use vstd::prelude::*;

verus! {

/// Why an operation was refused. A refused operation changes nothing.
#[derive(Clone, Copy, Debug, PartialEq, Eq, Structural)]
pub enum VaultError {
    /// A supplied or stored nonce does not reproduce the expected address.
    DerivationMismatch,
    /// The caller is not the record's owner, or did not sign.
    AuthorizationFailure,
    /// More was to be moved than the paying account holds.
    InsufficientBalance,
    /// A record was to be created where one had been created before.
    DuplicateRecord,
    /// The payer cannot cover the cost of the record's storage.
    AllocationFailure,
}

/// A call that changes `before` into `after` and returns `r` ends as
/// `outcome` says: it succeeds and leaves what the outcome holds, or it fails
/// with the outcome's failure and leaves everything as it was.
pub open spec fn ends_as<T>(
    outcome: Result<T, VaultError>,
    before: T,
    after: T,
    r: Result<(), VaultError>,
) -> bool {
    match outcome {
        Ok(expected) => r is Ok && after == expected,
        Err(e) => r == Err::<(), VaultError>(e) && after == before,
    }
}

} // verus!
