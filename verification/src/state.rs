//! The records the engine keeps on the ledger substrate: the configuration
//! of a debt asset, the configuration of a collateral asset, and one vault
//! per user position.

use vstd::prelude::*;

verus! {

/// Identifier of an account on the ledger substrate.
///
/// The substrate addresses every record (and every token account) by a
/// stable external key; the engine only ever compares such keys for
/// equality, so a single machine word stands in for one here.
#[derive(Clone, Copy, PartialEq, Eq, Structural, Debug)]
pub struct AccountId {
    pub value: u64,
}

/// A record together with the key the ledger substrate stores it under.
///
/// Relationship checks compare a reference stored inside one record
/// against the key of another account named in the same request.
#[derive(Clone, Copy, PartialEq, Eq, Structural, Debug)]
pub struct ProgramAccount<T> {
    pub id: AccountId,
    pub account: T,
}

/// Configuration of one pegged debt asset. Created once by its admin and
/// immutable afterwards.
#[derive(Clone, Copy, PartialEq, Eq, Structural, Debug)]
pub struct DebtType {
    /// The fungible asset minted as debt.
    pub debt_token: AccountId,
    /// The account authorized to configure this debt type.
    pub owner: AccountId,
    /// Nonce deriving the signing authority permitted to mint the debt asset.
    pub nonce: u8,
}

/// Configuration of one accepted collateral asset. Created once under the
/// admin of its debt type and immutable afterwards.
#[derive(Clone, Copy, PartialEq, Eq, Structural, Debug)]
pub struct VaultType {
    /// The debt type this collateral configuration belongs to.
    pub debt_type: AccountId,
    /// The fungible asset accepted as collateral.
    pub collateral_token: AccountId,
    /// The custodial token account holding all staked collateral of this
    /// type; controlled exclusively by the derived authority, never by a
    /// user.
    pub collateral_token_holder: AccountId,
    /// Nonce deriving the signing authority permitted to move funds out of
    /// the custodian.
    pub nonce: u8,
}

/// One user position: the collateral currently staked and the debt
/// currently outstanding, in units of the assets its vault type names.
#[derive(Clone, Copy, PartialEq, Eq, Structural, Debug)]
pub struct Vault {
    /// The vault type this position belongs to.
    pub vault_type: AccountId,
    /// The user controlling this position.
    pub owner: AccountId,
    /// Debt outstanding.
    pub debt_amount: u64,
    /// Collateral staked.
    pub collateral_amount: u64,
    /// Substrate clock reading of the last stake against this position.
    pub last_stake_ts: i64,
}

impl Vault {
    /// The same position with a new collateral balance.
    pub open spec fn with_collateral(self, collateral_amount: u64) -> Vault {
        Vault { collateral_amount, ..self }
    }

    /// The same position with a new debt balance.
    pub open spec fn with_debt(self, debt_amount: u64) -> Vault {
        Vault { debt_amount, ..self }
    }
}

} // verus!
