//! The accounting laws of a single vault, stated over runs of the step
//! model that every handler's contract is written against: balances are
//! exact running sums of the amounts accepted, and they never wrap or go
//! negative at any point of a run.

use vstd::prelude::*;
use crate::model::VaultOp;
use crate::model::collateral_ops_only;
use crate::model::debt_ops_only;
use crate::model::sum_borrowed;
use crate::model::sum_repaid;
use crate::model::sum_staked;
use crate::model::sum_unstaked;
use crate::model::vault_run;
use crate::model::vault_step;
use crate::state::Vault;

verus! {

/// A run that is accepted as a whole is accepted at every point along the
/// way: no prefix of it is rejected. Together with the accounting laws
/// below, this pins every intermediate balance of an accepted run to an
/// in-range running sum.
pub proof fn lemma_run_prefix_ok(v: Vault, ops: Seq<VaultOp>, i: int)
    requires
        vault_run(v, ops) is Ok,
        0 <= i <= ops.len(),
    ensures
        vault_run(v, ops.take(i)) is Ok,
    decreases ops.len(),
{
    if i > 0 {
        let next = vault_step(v, ops[0])->Ok_0;
        lemma_run_prefix_ok(next, ops.drop_first(), i - 1);
        assert(ops.take(i).drop_first() =~= ops.drop_first().take(i - 1));
    }
}

/// For any accepted sequence of stake and unstake steps on one vault, the
/// collateral balance is exactly the starting balance plus everything
/// staked minus everything unstaked; that sum stays within the 64-bit
/// range, and the debt balance is untouched.
pub proof fn lemma_collateral_accounting(v: Vault, ops: Seq<VaultOp>)
    requires
        collateral_ops_only(ops),
        vault_run(v, ops) is Ok,
    ensures
        vault_run(v, ops)->Ok_0.collateral_amount == v.collateral_amount + sum_staked(ops)
            - sum_unstaked(ops),
        vault_run(v, ops)->Ok_0.debt_amount == v.debt_amount,
        0 <= v.collateral_amount + sum_staked(ops) - sum_unstaked(ops) <= u64::MAX,
    decreases ops.len(),
{
    if ops.len() > 0 {
        assert(ops[0] is Stake || ops[0] is Unstake);
        assert forall|i: int|
            0 <= i < ops.drop_first().len() implies (ops.drop_first()[i] is Stake
            || ops.drop_first()[i] is Unstake) by {
            assert(ops.drop_first()[i] == ops[i + 1]);
        }
        let next = vault_step(v, ops[0])->Ok_0;
        lemma_collateral_accounting(next, ops.drop_first());
    }
}

/// For any accepted sequence of borrow and repay steps on one vault, the
/// debt balance is exactly the starting balance plus everything borrowed
/// minus everything repaid; that sum stays within the 64-bit range, and
/// the collateral balance is untouched.
pub proof fn lemma_debt_accounting(v: Vault, ops: Seq<VaultOp>)
    requires
        debt_ops_only(ops),
        vault_run(v, ops) is Ok,
    ensures
        vault_run(v, ops)->Ok_0.debt_amount == v.debt_amount + sum_borrowed(ops) - sum_repaid(
            ops,
        ),
        vault_run(v, ops)->Ok_0.collateral_amount == v.collateral_amount,
        0 <= v.debt_amount + sum_borrowed(ops) - sum_repaid(ops) <= u64::MAX,
    decreases ops.len(),
{
    if ops.len() > 0 {
        assert(ops[0] is Borrow || ops[0] is Repay);
        assert forall|i: int|
            0 <= i < ops.drop_first().len() implies (ops.drop_first()[i] is Borrow
            || ops.drop_first()[i] is Repay) by {
            assert(ops.drop_first()[i] == ops[i + 1]);
        }
        let next = vault_step(v, ops[0])->Ok_0;
        lemma_debt_accounting(next, ops.drop_first());
    }
}

} // verus!
