//! The failures an operation can report. Every failure aborts the whole
//! operation: no record changes and no asset movement is requested.

use vstd::prelude::*;

verus! {

/// Why an operation was rejected.
#[derive(Clone, Copy, PartialEq, Eq, Structural, Debug)]
pub enum ParrotError {
    /// An additive balance update would exceed the 64-bit range, or a
    /// collateral withdrawal exceeds the staked balance. Balances never
    /// wrap.
    NumberOverflow,
    /// A repay names an amount larger than the outstanding debt; debt is
    /// never clamped below zero.
    RepayTooMuch,
    /// The caller is not the authority the requested mutation demands
    /// (the debt type's admin, or the vault's owner).
    Unauthorized,
    /// The accounts named in a request do not satisfy the required
    /// ownership-chain constraints among debt type, vault type and vault.
    RelationshipMismatch,
    /// The external transfer/mint/burn collaborator rejected the request.
    /// The engine itself never reports this: the service runs outside it,
    /// and the surrounding runtime surfaces such a rejection verbatim.
    ExternalServiceFailure,
}

} // verus!
