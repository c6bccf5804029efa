//! Vault accounting and authorization engine of a collateralized-debt
//! protocol: users stake collateral of an approved asset type and, against
//! it, mint (borrow) units of a pegged debt asset, later repaying debt and
//! reclaiming collateral. Every operation validates the ownership chain
//! among the records it names, checks the caller's authority, updates the
//! position with overflow- and underflow-checked arithmetic, and reports
//! the single asset movement the external token service must perform; a
//! rejected operation changes nothing and requests no movement.

pub mod action;
pub mod error;
pub mod laws;
pub mod model;
pub mod ops;
pub mod state;

pub use action::Authority;
pub use action::TokenAction;
pub use error::ParrotError;
pub use model::VaultOp;
pub use ops::Borrow;
pub use ops::InitDebtType;
pub use ops::InitVault;
pub use ops::InitVaultType;
pub use ops::Repay;
pub use ops::Stake;
pub use ops::Unstake;
pub use ops::borrow;
pub use ops::init_debt_type;
pub use ops::init_vault;
pub use ops::init_vault_type;
pub use ops::repay;
pub use ops::stake;
pub use ops::unstake;
pub use state::AccountId;
pub use state::DebtType;
pub use state::ProgramAccount;
pub use state::Vault;
pub use state::VaultType;
