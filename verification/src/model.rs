//! The mathematical model of a vault's balance dynamics. Once a request's
//! account relationships and authorization have been checked, each
//! operation is one arithmetic step on the vault it names; runs of steps
//! give the accounting laws their statement.

use vstd::prelude::*;
use crate::error::ParrotError;
use crate::state::Vault;

verus! {

/// One balance-changing operation on a single vault, reduced to the
/// arithmetic it performs.
#[derive(Clone, Copy, PartialEq, Eq, Structural, Debug)]
pub enum VaultOp {
    /// Deposit collateral.
    Stake { amount: u64 },
    /// Mint debt.
    Borrow { amount: u64 },
    /// Burn debt.
    Repay { amount: u64 },
    /// Withdraw collateral.
    Unstake { amount: u64 },
}

/// How one operation changes a vault's balances, or why it is rejected:
/// an addition that would exceed the 64-bit range fails as
/// `NumberOverflow` rather than wrap; a repay larger than the outstanding
/// debt fails as `RepayTooMuch`; a withdrawal larger than the staked
/// collateral fails as `NumberOverflow`. A rejected step leaves the vault
/// as it was.
pub open spec fn vault_step(v: Vault, op: VaultOp) -> Result<Vault, ParrotError> {
    match op {
        VaultOp::Stake { amount } => if v.collateral_amount + amount <= u64::MAX {
            Ok(v.with_collateral((v.collateral_amount + amount) as u64))
        } else {
            Err(ParrotError::NumberOverflow)
        },
        VaultOp::Borrow { amount } => if v.debt_amount + amount <= u64::MAX {
            Ok(v.with_debt((v.debt_amount + amount) as u64))
        } else {
            Err(ParrotError::NumberOverflow)
        },
        VaultOp::Repay { amount } => if amount <= v.debt_amount {
            Ok(v.with_debt((v.debt_amount - amount) as u64))
        } else {
            Err(ParrotError::RepayTooMuch)
        },
        VaultOp::Unstake { amount } => if amount <= v.collateral_amount {
            Ok(v.with_collateral((v.collateral_amount - amount) as u64))
        } else {
            Err(ParrotError::NumberOverflow)
        },
    }
}

/// The vault after running `ops` in order from `v`; the first rejected
/// step aborts the run with its error.
pub open spec fn vault_run(v: Vault, ops: Seq<VaultOp>) -> Result<Vault, ParrotError>
    decreases ops.len(),
{
    if ops.len() == 0 {
        Ok(v)
    } else {
        match vault_step(v, ops[0]) {
            Ok(next) => vault_run(next, ops.drop_first()),
            Err(e) => Err(e),
        }
    }
}

/// Total amount the stake steps of `ops` deposit.
pub open spec fn sum_staked(ops: Seq<VaultOp>) -> int
    decreases ops.len(),
{
    if ops.len() == 0 {
        0
    } else {
        (match ops[0] {
            VaultOp::Stake { amount } => amount as int,
            _ => 0,
        }) + sum_staked(ops.drop_first())
    }
}

/// Total amount the unstake steps of `ops` withdraw.
pub open spec fn sum_unstaked(ops: Seq<VaultOp>) -> int
    decreases ops.len(),
{
    if ops.len() == 0 {
        0
    } else {
        (match ops[0] {
            VaultOp::Unstake { amount } => amount as int,
            _ => 0,
        }) + sum_unstaked(ops.drop_first())
    }
}

/// Total amount the borrow steps of `ops` mint.
pub open spec fn sum_borrowed(ops: Seq<VaultOp>) -> int
    decreases ops.len(),
{
    if ops.len() == 0 {
        0
    } else {
        (match ops[0] {
            VaultOp::Borrow { amount } => amount as int,
            _ => 0,
        }) + sum_borrowed(ops.drop_first())
    }
}

/// Total amount the repay steps of `ops` burn.
pub open spec fn sum_repaid(ops: Seq<VaultOp>) -> int
    decreases ops.len(),
{
    if ops.len() == 0 {
        0
    } else {
        (match ops[0] {
            VaultOp::Repay { amount } => amount as int,
            _ => 0,
        }) + sum_repaid(ops.drop_first())
    }
}

/// Every step of `ops` moves collateral: stake or unstake.
pub open spec fn collateral_ops_only(ops: Seq<VaultOp>) -> bool {
    forall|i: int| 0 <= i < ops.len() ==> (ops[i] is Stake || ops[i] is Unstake)
}

/// Every step of `ops` moves debt: borrow or repay.
pub open spec fn debt_ops_only(ops: Seq<VaultOp>) -> bool {
    forall|i: int| 0 <= i < ops.len() ==> (ops[i] is Borrow || ops[i] is Repay)
}

} // verus!
