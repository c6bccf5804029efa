//! The operation handlers. Each takes the accounts one request names —
//! records together with the keys they are stored under, plus the token
//! accounts involved — validates the ownership chain among them, checks
//! the caller's authority, updates the vault with checked arithmetic, and
//! returns the single asset movement the external token service must
//! perform. A rejected request leaves every account exactly as it was and
//! requests no movement; the surrounding runtime discards the whole
//! request if the service itself rejects the movement, so either every
//! effect of an operation persists or none does.

use vstd::prelude::*;
use crate::action::Authority;
use crate::action::TokenAction;
use crate::error::ParrotError;
use crate::model::VaultOp;
use crate::model::vault_step;
use crate::state::AccountId;
use crate::state::DebtType;
use crate::state::ProgramAccount;
use crate::state::Vault;
use crate::state::VaultType;

verus! {

/// The accounts a debt type registration names.
#[derive(Clone, Copy, PartialEq, Eq, Structural, Debug)]
pub struct InitDebtType {
    /// The fresh record the registration fills.
    pub debt_type: ProgramAccount<DebtType>,
    /// The fungible asset to be minted as debt.
    pub debt_token: AccountId,
    /// The admin of the new debt type.
    pub owner: AccountId,
}

/// The accounts a vault type registration names.
#[derive(Clone, Copy, PartialEq, Eq, Structural, Debug)]
pub struct InitVaultType {
    /// The debt type the new vault type will belong to.
    pub debt_type: ProgramAccount<DebtType>,
    /// The fresh record the registration fills.
    pub vault_type: ProgramAccount<VaultType>,
    /// The caller; must be the debt type's admin.
    pub owner: AccountId,
    /// The fungible asset to accept as collateral.
    pub collateral_token: AccountId,
    /// The custodial token account that will hold all staked collateral.
    pub collateral_token_holder: AccountId,
}

/// The accounts a vault creation names.
#[derive(Clone, Copy, PartialEq, Eq, Structural, Debug)]
pub struct InitVault {
    /// The debt type at the root of the ownership chain.
    pub debt_type: ProgramAccount<DebtType>,
    /// The vault type the new vault will belong to.
    pub vault_type: ProgramAccount<VaultType>,
    /// The fresh record the creation fills.
    pub vault: ProgramAccount<Vault>,
    /// The user who will control the new position.
    pub owner: AccountId,
}

/// The accounts a stake request names.
#[derive(Clone, Copy, PartialEq, Eq, Structural, Debug)]
pub struct Stake {
    /// The vault type the vault belongs to.
    pub vault_type: ProgramAccount<VaultType>,
    /// The position being staked into.
    pub vault: ProgramAccount<Vault>,
    /// The token account the collateral is drawn from.
    pub collateral_from: AccountId,
    /// The owner of `collateral_from`, who signs the transfer.
    pub collateral_from_authority: AccountId,
    /// The token account the collateral is paid into; must be the vault
    /// type's custodian.
    pub collateral_to: AccountId,
}

/// The accounts a borrow request names.
#[derive(Clone, Copy, PartialEq, Eq, Structural, Debug)]
pub struct Borrow {
    /// The debt type whose asset is minted.
    pub debt_type: ProgramAccount<DebtType>,
    /// The vault type the vault belongs to.
    pub vault_type: ProgramAccount<VaultType>,
    /// The position borrowed against.
    pub vault: ProgramAccount<Vault>,
    /// The caller; must be the vault's owner.
    pub vault_owner: AccountId,
    /// The debt asset; must be the one the debt type names.
    pub debt_token: AccountId,
    /// The token account the minted debt is paid into.
    pub receiver: AccountId,
}

/// The accounts a repay request names.
#[derive(Clone, Copy, PartialEq, Eq, Structural, Debug)]
pub struct Repay {
    /// The debt type whose asset is burned.
    pub debt_type: ProgramAccount<DebtType>,
    /// The vault type the vault belongs to.
    pub vault_type: ProgramAccount<VaultType>,
    /// The position being repaid.
    pub vault: ProgramAccount<Vault>,
    /// The vault's owner, named for reference; repaying needs no
    /// signature from them — anyone holding the debt asset may repay on a
    /// vault's behalf.
    pub vault_owner: AccountId,
    /// The debt asset; must be the one the debt type names.
    pub debt_token: AccountId,
    /// The token account the burned debt is drawn from.
    pub debt_from: AccountId,
    /// The owner of `debt_from`, who signs the burn.
    pub debt_from_authority: AccountId,
}

/// The accounts an unstake request names.
#[derive(Clone, Copy, PartialEq, Eq, Structural, Debug)]
pub struct Unstake {
    /// The vault type the vault belongs to.
    pub vault_type: ProgramAccount<VaultType>,
    /// The position being unstaked from.
    pub vault: ProgramAccount<Vault>,
    /// The caller; must be the vault's owner.
    pub vault_owner: AccountId,
    /// The collateral asset account; carried for the token service and
    /// not validated against the vault type here.
    pub collateral_token: AccountId,
    /// The custodial token account the collateral leaves; must be the
    /// vault type's custodian.
    pub collateral_token_holder: AccountId,
    /// The token account the collateral is paid out to.
    pub receiver: AccountId,
}

impl InitVaultType {
    /// The same request with its vault type record filled.
    pub open spec fn with_vault_type(self, vault_type: VaultType) -> InitVaultType {
        InitVaultType {
            vault_type: ProgramAccount { id: self.vault_type.id, account: vault_type },
            ..self
        }
    }
}

impl InitVault {
    /// The same request with its vault record filled.
    pub open spec fn with_vault(self, vault: Vault) -> InitVault {
        InitVault { vault: ProgramAccount { id: self.vault.id, account: vault }, ..self }
    }
}

impl Stake {
    /// The same request with its vault record replaced.
    pub open spec fn with_vault(self, vault: Vault) -> Stake {
        Stake { vault: ProgramAccount { id: self.vault.id, account: vault }, ..self }
    }
}

impl Borrow {
    /// The same request with its vault record replaced.
    pub open spec fn with_vault(self, vault: Vault) -> Borrow {
        Borrow { vault: ProgramAccount { id: self.vault.id, account: vault }, ..self }
    }
}

impl Repay {
    /// The same request with its vault record replaced.
    pub open spec fn with_vault(self, vault: Vault) -> Repay {
        Repay { vault: ProgramAccount { id: self.vault.id, account: vault }, ..self }
    }
}

impl Unstake {
    /// The same request with its vault record replaced.
    pub open spec fn with_vault(self, vault: Vault) -> Unstake {
        Unstake { vault: ProgramAccount { id: self.vault.id, account: vault }, ..self }
    }
}

/// The ownership chain a stake request must satisfy: the vault belongs to
/// the vault type named, and the collateral is paid into that vault
/// type's custodian.
pub open spec fn stake_accounts_valid(a: Stake) -> bool {
    &&& a.vault.account.vault_type == a.vault_type.id
    &&& a.collateral_to == a.vault_type.account.collateral_token_holder
}

/// The ownership chain a borrow request must satisfy: the vault belongs
/// to the vault type named, that vault type belongs to the debt type
/// named, and the asset minted is the debt type's debt token.
pub open spec fn borrow_accounts_valid(a: Borrow) -> bool {
    &&& a.vault.account.vault_type == a.vault_type.id
    &&& a.vault_type.account.debt_type == a.debt_type.id
    &&& a.debt_token == a.debt_type.account.debt_token
}

/// The ownership chain a repay request must satisfy: the vault belongs to
/// the vault type named, that vault type belongs to the debt type named,
/// the asset burned is the debt type's debt token, and the owner account
/// named is the vault's owner.
pub open spec fn repay_accounts_valid(a: Repay) -> bool {
    &&& a.vault.account.vault_type == a.vault_type.id
    &&& a.vault_type.account.debt_type == a.debt_type.id
    &&& a.debt_token == a.debt_type.account.debt_token
    &&& a.vault_owner == a.vault.account.owner
}

/// The ownership chain an unstake request must satisfy: the vault belongs
/// to the vault type named, and the collateral leaves that vault type's
/// custodian.
pub open spec fn unstake_accounts_valid(a: Unstake) -> bool {
    &&& a.vault.account.vault_type == a.vault_type.id
    &&& a.collateral_token_holder == a.vault_type.account.collateral_token_holder
}

/// Registers a debt type: records which fungible asset is minted as debt,
/// who administers the configuration, and the nonce deriving the minting
/// authority. A root entity, so no relationship or authority check
/// applies; the substrate alone rejects a second registration of the same
/// record.
pub fn init_debt_type(accounts: &mut InitDebtType, nonce: u8)
    ensures
        final(accounts).debt_type.id == old(accounts).debt_type.id,
        final(accounts).debt_type.account == (DebtType {
            debt_token: old(accounts).debt_token,
            owner: old(accounts).owner,
            nonce,
        }),
        final(accounts).debt_token == old(accounts).debt_token,
        final(accounts).owner == old(accounts).owner,
{
    accounts.debt_type.account = DebtType {
        debt_token: accounts.debt_token,
        owner: accounts.owner,
        nonce,
    };
}

/// Registers a vault type under an existing debt type: records the
/// collateral asset accepted, the custodian holding it, and the nonce
/// deriving the authority permitted to move funds out of the custodian.
/// Only the debt type's admin may register one.
pub fn init_vault_type(accounts: &mut InitVaultType, nonce: u8) -> (result: Result<
    (),
    ParrotError,
>)
    ensures
        result is Err ==> *final(accounts) == *old(accounts),
        old(accounts).owner != old(accounts).debt_type.account.owner ==> result == Err::<
            (),
            ParrotError,
        >(ParrotError::Unauthorized),
        old(accounts).owner == old(accounts).debt_type.account.owner ==> {
            &&& result == Ok::<(), ParrotError>(())
            &&& *final(accounts) == old(accounts).with_vault_type(
                (VaultType {
                    debt_type: old(accounts).debt_type.id,
                    collateral_token: old(accounts).collateral_token,
                    collateral_token_holder: old(accounts).collateral_token_holder,
                    nonce,
                }),
            )
        },
{
    if accounts.owner != accounts.debt_type.account.owner {
        return Err(ParrotError::Unauthorized);
    }
    accounts.vault_type.account = VaultType {
        debt_type: accounts.debt_type.id,
        collateral_token: accounts.collateral_token,
        collateral_token_holder: accounts.collateral_token_holder,
        nonce,
    };
    Ok(())
}

/// Creates a vault under an existing vault type, with the starting
/// balances the caller supplies. No asset movement backs the starting
/// balances: the substrate and client are expected to create positions at
/// zero and route every balance change through stake and borrow.
pub fn init_vault(accounts: &mut InitVault, debt_amount: u64, collateral_amount: u64) -> (result:
    Result<(), ParrotError>)
    ensures
        result is Err ==> *final(accounts) == *old(accounts),
        old(accounts).vault_type.account.debt_type != old(accounts).debt_type.id ==> result
            == Err::<(), ParrotError>(ParrotError::RelationshipMismatch),
        old(accounts).vault_type.account.debt_type == old(accounts).debt_type.id ==> {
            &&& result == Ok::<(), ParrotError>(())
            &&& *final(accounts) == old(accounts).with_vault(
                (Vault {
                    vault_type: old(accounts).vault_type.id,
                    owner: old(accounts).owner,
                    debt_amount,
                    collateral_amount,
                    last_stake_ts: 0,
                }),
            )
        },
{
    if accounts.vault_type.account.debt_type != accounts.debt_type.id {
        return Err(ParrotError::RelationshipMismatch);
    }
    accounts.vault.account = Vault {
        vault_type: accounts.vault_type.id,
        owner: accounts.owner,
        debt_amount,
        collateral_amount,
        last_stake_ts: 0,
    };
    Ok(())
}

/// Stakes collateral: credits the vault and instructs the token service
/// to move `amount` of the collateral asset from the depositor's account
/// into the custodian, signed by the depositor. No authority of the
/// vault's owner is demanded: anyone may add collateral to any vault.
pub fn stake(accounts: &mut Stake, amount: u64) -> (result: Result<TokenAction, ParrotError>)
    ensures
        result is Err ==> *final(accounts) == *old(accounts),
        !stake_accounts_valid(*old(accounts)) ==> result == Err::<TokenAction, ParrotError>(
            ParrotError::RelationshipMismatch,
        ),
        stake_accounts_valid(*old(accounts)) ==> match vault_step(
            old(accounts).vault.account,
            (VaultOp::Stake { amount }),
        ) {
            Ok(v) => {
                &&& *final(accounts) == old(accounts).with_vault(v)
                &&& result == Ok::<TokenAction, ParrotError>(
                    (TokenAction::Transfer {
                        from: old(accounts).collateral_from,
                        to: old(accounts).collateral_to,
                        authority: (Authority::Account {
                            id: old(accounts).collateral_from_authority,
                        }),
                        amount,
                    }),
                )
            },
            Err(e) => result == Err::<TokenAction, ParrotError>(e),
        },
{
    if accounts.vault.account.vault_type != accounts.vault_type.id
        || accounts.collateral_to != accounts.vault_type.account.collateral_token_holder {
        return Err(ParrotError::RelationshipMismatch);
    }
    match accounts.vault.account.collateral_amount.checked_add(amount) {
        Some(collateral_amount) => {
            accounts.vault.account.collateral_amount = collateral_amount;
            Ok(
                TokenAction::Transfer {
                    from: accounts.collateral_from,
                    to: accounts.collateral_to,
                    authority: Authority::Account { id: accounts.collateral_from_authority },
                    amount,
                },
            )
        },
        None => Err(ParrotError::NumberOverflow),
    }
}

/// Borrows against a vault: credits its debt and instructs the token
/// service to mint `amount` of the debt asset into the receiver, signed
/// by the authority derived from the debt type's key and nonce. Only the
/// vault's owner may borrow. No collateralization ratio is checked before
/// minting: pricing the collateral is outside this engine, and a
/// deployment must add that policy in front of it.
pub fn borrow(accounts: &mut Borrow, amount: u64) -> (result: Result<TokenAction, ParrotError>)
    ensures
        result is Err ==> *final(accounts) == *old(accounts),
        !borrow_accounts_valid(*old(accounts)) ==> result == Err::<TokenAction, ParrotError>(
            ParrotError::RelationshipMismatch,
        ),
        borrow_accounts_valid(*old(accounts)) && old(accounts).vault_owner != old(
            accounts,
        ).vault.account.owner ==> result == Err::<TokenAction, ParrotError>(
            ParrotError::Unauthorized,
        ),
        borrow_accounts_valid(*old(accounts)) && old(accounts).vault_owner == old(
            accounts,
        ).vault.account.owner ==> match vault_step(
            old(accounts).vault.account,
            (VaultOp::Borrow { amount }),
        ) {
            Ok(v) => {
                &&& *final(accounts) == old(accounts).with_vault(v)
                &&& result == Ok::<TokenAction, ParrotError>(
                    (TokenAction::MintTo {
                        mint: old(accounts).debt_token,
                        to: old(accounts).receiver,
                        authority: (Authority::Derived {
                            record: old(accounts).debt_type.id,
                            nonce: old(accounts).debt_type.account.nonce,
                        }),
                        amount,
                    }),
                )
            },
            Err(e) => result == Err::<TokenAction, ParrotError>(e),
        },
{
    if accounts.vault.account.vault_type != accounts.vault_type.id
        || accounts.vault_type.account.debt_type != accounts.debt_type.id
        || accounts.debt_token != accounts.debt_type.account.debt_token {
        return Err(ParrotError::RelationshipMismatch);
    }
    if accounts.vault_owner != accounts.vault.account.owner {
        return Err(ParrotError::Unauthorized);
    }
    match accounts.vault.account.debt_amount.checked_add(amount) {
        Some(debt_amount) => {
            accounts.vault.account.debt_amount = debt_amount;
            Ok(
                TokenAction::MintTo {
                    mint: accounts.debt_token,
                    to: accounts.receiver,
                    authority: Authority::Derived {
                        record: accounts.debt_type.id,
                        nonce: accounts.debt_type.account.nonce,
                    },
                    amount,
                },
            )
        },
        None => Err(ParrotError::NumberOverflow),
    }
}

/// Repays debt: debits the vault and instructs the token service to burn
/// `amount` of the debt asset out of the payer's account, signed by the
/// payer. Repaying more than the outstanding debt is rejected as
/// `RepayTooMuch`, never clamped.
pub fn repay(accounts: &mut Repay, amount: u64) -> (result: Result<TokenAction, ParrotError>)
    ensures
        result is Err ==> *final(accounts) == *old(accounts),
        !repay_accounts_valid(*old(accounts)) ==> result == Err::<TokenAction, ParrotError>(
            ParrotError::RelationshipMismatch,
        ),
        repay_accounts_valid(*old(accounts)) ==> match vault_step(
            old(accounts).vault.account,
            (VaultOp::Repay { amount }),
        ) {
            Ok(v) => {
                &&& *final(accounts) == old(accounts).with_vault(v)
                &&& result == Ok::<TokenAction, ParrotError>(
                    (TokenAction::Burn {
                        mint: old(accounts).debt_token,
                        from: old(accounts).debt_from,
                        authority: (Authority::Account {
                            id: old(accounts).debt_from_authority,
                        }),
                        amount,
                    }),
                )
            },
            Err(e) => result == Err::<TokenAction, ParrotError>(e),
        },
{
    if accounts.vault.account.vault_type != accounts.vault_type.id
        || accounts.vault_type.account.debt_type != accounts.debt_type.id
        || accounts.debt_token != accounts.debt_type.account.debt_token
        || accounts.vault_owner != accounts.vault.account.owner {
        return Err(ParrotError::RelationshipMismatch);
    }
    match accounts.vault.account.debt_amount.checked_sub(amount) {
        Some(debt_amount) => {
            accounts.vault.account.debt_amount = debt_amount;
            Ok(
                TokenAction::Burn {
                    mint: accounts.debt_token,
                    from: accounts.debt_from,
                    authority: Authority::Account { id: accounts.debt_from_authority },
                    amount,
                },
            )
        },
        None => Err(ParrotError::RepayTooMuch),
    }
}

/// Unstakes collateral: debits the vault and instructs the token service
/// to move `amount` of the collateral asset from the custodian to the
/// receiver, signed by the authority derived from the vault type's key
/// and nonce. Only the vault's owner may unstake. Whether the remaining
/// collateral still covers the outstanding debt is not checked: pricing
/// is outside this engine, and a deployment must add that policy in front
/// of it.
pub fn unstake(accounts: &mut Unstake, amount: u64) -> (result: Result<TokenAction, ParrotError>)
    ensures
        result is Err ==> *final(accounts) == *old(accounts),
        !unstake_accounts_valid(*old(accounts)) ==> result == Err::<TokenAction, ParrotError>(
            ParrotError::RelationshipMismatch,
        ),
        unstake_accounts_valid(*old(accounts)) && old(accounts).vault_owner != old(
            accounts,
        ).vault.account.owner ==> result == Err::<TokenAction, ParrotError>(
            ParrotError::Unauthorized,
        ),
        unstake_accounts_valid(*old(accounts)) && old(accounts).vault_owner == old(
            accounts,
        ).vault.account.owner ==> match vault_step(
            old(accounts).vault.account,
            (VaultOp::Unstake { amount }),
        ) {
            Ok(v) => {
                &&& *final(accounts) == old(accounts).with_vault(v)
                &&& result == Ok::<TokenAction, ParrotError>(
                    (TokenAction::Transfer {
                        from: old(accounts).collateral_token_holder,
                        to: old(accounts).receiver,
                        authority: (Authority::Derived {
                            record: old(accounts).vault_type.id,
                            nonce: old(accounts).vault_type.account.nonce,
                        }),
                        amount,
                    }),
                )
            },
            Err(e) => result == Err::<TokenAction, ParrotError>(e),
        },
{
    if accounts.vault.account.vault_type != accounts.vault_type.id
        || accounts.collateral_token_holder
            != accounts.vault_type.account.collateral_token_holder {
        return Err(ParrotError::RelationshipMismatch);
    }
    if accounts.vault_owner != accounts.vault.account.owner {
        return Err(ParrotError::Unauthorized);
    }
    match accounts.vault.account.collateral_amount.checked_sub(amount) {
        Some(collateral_amount) => {
            accounts.vault.account.collateral_amount = collateral_amount;
            Ok(
                TokenAction::Transfer {
                    from: accounts.collateral_token_holder,
                    to: accounts.receiver,
                    authority: Authority::Derived {
                        record: accounts.vault_type.id,
                        nonce: accounts.vault_type.account.nonce,
                    },
                    amount,
                },
            )
        },
        None => Err(ParrotError::NumberOverflow),
    }
}

} // verus!
