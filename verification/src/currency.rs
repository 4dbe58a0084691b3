//! Interface to the currency ledger collaborator.
//!
//! The currency ledger itself (balance storage, fee rules, liveness
//! accounting) lives outside this module; the marketplace only needs one
//! operation from it. The trait carries no contract on purpose: the core
//! promises nothing about whether a given transfer succeeds, and every
//! caller in this crate states what holds of the state for either
//! outcome.

use vstd::prelude::*;

verus! {

/// Failure reported by the currency collaborator. The core does not
/// inspect it further: any failure aborts the enclosing operation with
/// [`crate::types::Error::InsufficientFunds`] and no state change.
#[derive(Clone, Copy, Debug, PartialEq, Eq)]
pub struct CurrencyError;

/// The one call the marketplace needs from the currency ledger: move
/// `amount` from `from` to `to`. With `keep_alive` set, the transfer
/// must fail rather than drain `from` below the ledger's minimum
/// balance.
pub trait Currency {
    fn transfer(
        &mut self,
        from: crate::types::AccountId,
        to: crate::types::AccountId,
        amount: crate::types::Balance,
        keep_alive: bool,
    ) -> Result<(), CurrencyError>;
}

} // verus!
