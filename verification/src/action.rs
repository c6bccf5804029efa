//! The asset movement an accepted operation instructs the external token
//! service to perform. The engine decides and accounts; the service moves
//! balances. Both run inside one atomic request: if either side fails,
//! the substrate discards every effect of the operation.

use vstd::prelude::*;
use crate::state::AccountId;

verus! {

/// The signing authority for one asset movement.
#[derive(Clone, Copy, PartialEq, Eq, Structural, Debug)]
pub enum Authority {
    /// An ordinary account signing for itself.
    Account { id: AccountId },
    /// The protocol-controlled authority derived from a record's key and
    /// its stored nonce; the token service recomputes and honours it, so
    /// the protocol signs without any private key.
    Derived { record: AccountId, nonce: u8 },
}

/// The single movement of a fungible asset that one accepted operation
/// requires of the token service. A rejected operation produces none.
#[derive(Clone, Copy, PartialEq, Eq, Structural, Debug)]
pub enum TokenAction {
    /// Move `amount` of an asset from one token account to another.
    Transfer { from: AccountId, to: AccountId, authority: Authority, amount: u64 },
    /// Create `amount` of the asset `mint` in the account `to`.
    MintTo { mint: AccountId, to: AccountId, authority: Authority, amount: u64 },
    /// Destroy `amount` of the asset `mint` held in the account `from`.
    Burn { mint: AccountId, from: AccountId, authority: Authority, amount: u64 },
}

} // verus!
