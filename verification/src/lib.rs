//! A custodial vault whose record and holding account live at addresses
//! derived from the owner's identity.
//!
//! An owner creates one record, deposits into and withdraws from the holding
//! account that belongs to it, and closes it. Neither the record nor the
//! holding account has a private key: their addresses are derived from the
//! owner's identity, and every operation derives them again before it moves
//! anything.
//!
//! - `address`: the 32-byte address.
//! - `derivation`: deriving an address and its nonce, and verifying one.
//! - `state`: the accounts of an operation, as plain values.
//! - `access`: the rule that admits the owner, and nobody else, to a record.
//! - `ledger`: the transfer of balance and the proof of authority it asks for.
//! - `initialize`, `payment`, `close`: the operations on their accounts.
//! - `instructions`: the four operations as free functions.
//! - `laws`: what holds of the operations taken together.

pub mod access;
pub mod address;
pub mod close;
pub mod derivation;
pub mod error;
pub mod initialize;
pub mod instructions;
pub mod laws;
pub mod ledger;
pub mod payment;
pub mod state;
