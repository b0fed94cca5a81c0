use crate::account::StakeAccount;
use crate::accrual::{
    accrual_of, can_settle, points_earned, settled, LAMPORTS_PER_SOL, POINTS_PER_SOL_PER_DAY,
    SECONDS_PER_DAY,
};
use vstd::arithmetic::div_mod::lemma_div_pos_is_pos;
use vstd::prelude::*;

verus! {

/// No time, no points: a zero elapsed window accrues nothing, whatever is
/// staked.
pub proof fn lemma_no_time_no_points(staked: int)
    ensures
        points_earned(staked, 0) == 0,
{
    assert(staked * 0 * (POINTS_PER_SOL_PER_DAY as int) == 0) by (nonlinear_arith);
}

/// No stake, no points: an empty balance accrues nothing, however long the
/// window.
pub proof fn lemma_no_stake_no_points(elapsed: int)
    ensures
        points_earned(0, elapsed) == 0,
{
    assert(0 * elapsed * (POINTS_PER_SOL_PER_DAY as int) == 0) by (nonlinear_arith);
}

/// Accrual never produces negative points over a non-negative window.
pub proof fn lemma_points_earned_nonneg(staked: int, elapsed: int)
    requires
        0 <= staked,
        0 <= elapsed,
    ensures
        0 <= points_earned(staked, elapsed),
{
    assert(0 <= staked * elapsed * (POINTS_PER_SOL_PER_DAY as int)) by (nonlinear_arith)
        requires
            0 <= staked,
            0 <= elapsed,
    ;
    lemma_div_pos_is_pos(
        staked * elapsed * (POINTS_PER_SOL_PER_DAY as int),
        LAMPORTS_PER_SOL as int,
    );
    lemma_div_pos_is_pos(
        staked * elapsed * (POINTS_PER_SOL_PER_DAY as int) / (LAMPORTS_PER_SOL as int),
        SECONDS_PER_DAY as int,
    );
}

/// Settlement never loses points and never turns the clock back: the point
/// total only grows (nothing but a claim resets it) and the last-update
/// timestamp only advances.
pub proof fn lemma_settlement_monotonic(rec: StakeAccount, now: i64)
    requires
        can_settle(rec, now),
    ensures
        settled(rec, now).total_points >= rec.total_points,
        settled(rec, now).last_update_time >= rec.last_update_time,
{
    lemma_points_earned_nonneg(rec.staked_amount as int, now - rec.last_update_time);
}

/// Settlement is idempotent: a record just settled at `now` can always be
/// settled at `now` again, and the second settlement changes nothing — its
/// elapsed window is zero, so it accrues zero points.
pub proof fn lemma_settlement_idempotent(rec: StakeAccount, now: i64)
    requires
        can_settle(rec, now),
    ensures
        can_settle(settled(rec, now), now),
        settled(settled(rec, now), now) == settled(rec, now),
{
    let once = settled(rec, now);
    lemma_points_earned_nonneg(rec.staked_amount as int, now - rec.last_update_time);
    assert((once.staked_amount as int) * (now - once.last_update_time) * (
    POINTS_PER_SOL_PER_DAY as int) == 0) by (nonlinear_arith)
        requires
            now - once.last_update_time == 0,
    ;
    lemma_no_time_no_points(once.staked_amount as int);
    assert(accrual_of(once, now) == 0);
}

/// One successful balance-affecting operation, named by its effect on the
/// staked amount.
pub enum BalanceOp {
    /// A successful `stake` of this amount.
    Deposit { amount: u64 },
    /// A successful `unstake` of this amount.
    Withdraw { amount: u64 },
}

/// Sum of all amounts deposited by `ops`.
pub open spec fn deposits_total(ops: Seq<BalanceOp>) -> int
    decreases ops.len(),
{
    if ops.len() == 0 {
        0
    } else {
        deposits_total(ops.drop_last()) + (match ops.last() {
            BalanceOp::Deposit { amount } => amount as int,
            BalanceOp::Withdraw { .. } => 0,
        })
    }
}

/// Sum of all amounts withdrawn by `ops`.
pub open spec fn withdrawals_total(ops: Seq<BalanceOp>) -> int
    decreases ops.len(),
{
    if ops.len() == 0 {
        0
    } else {
        withdrawals_total(ops.drop_last()) + (match ops.last() {
            BalanceOp::Deposit { .. } => 0,
            BalanceOp::Withdraw { amount } => amount as int,
        })
    }
}

/// How one successful operation relates the record before it to the record
/// after it, projected to the staked amount: exactly what the `ensures` of
/// `stake` and `unstake` guarantee on success (settlement never changes the
/// staked amount).
pub open spec fn balance_step(before: StakeAccount, op: BalanceOp, after: StakeAccount) -> bool {
    match op {
        BalanceOp::Deposit { amount } => after.staked_amount == before.staked_amount + amount,
        BalanceOp::Withdraw { amount } => amount <= before.staked_amount && after.staked_amount
            == before.staked_amount - amount,
    }
}

/// `trace` holds the record states around each operation of `ops`: state `i`
/// before operation `i`, state `i + 1` after it.
pub open spec fn trace_consistent(trace: Seq<StakeAccount>, ops: Seq<BalanceOp>) -> bool {
    &&& trace.len() == ops.len() + 1
    &&& forall|i: int|
        0 <= i < ops.len() ==> balance_step(trace[i], #[trigger] ops[i], trace[i + 1])
}

/// A successful `stake` is one `Deposit` step of the net-flow law: its
/// `ensures` puts the record in exactly this relation to its old value.
pub proof fn lemma_stake_is_deposit_step(
    before: StakeAccount,
    after: StakeAccount,
    now: i64,
    amount: u64,
)
    requires
        before.staked_amount + amount <= u64::MAX,
        after == (StakeAccount {
            staked_amount: (before.staked_amount + amount) as u64,
            ..settled(before, now)
        }),
    ensures
        balance_step(before, BalanceOp::Deposit { amount }, after),
{
}

/// A successful `unstake` is one `Withdraw` step of the net-flow law: its
/// `ensures` puts the record in exactly this relation to its old value.
pub proof fn lemma_unstake_is_withdraw_step(
    before: StakeAccount,
    after: StakeAccount,
    now: i64,
    amount: u64,
)
    requires
        amount <= before.staked_amount,
        after == (StakeAccount {
            staked_amount: (before.staked_amount - amount) as u64,
            ..settled(before, now)
        }),
    ensures
        balance_step(before, BalanceOp::Withdraw { amount }, after),
{
}

/// Net-flow law: across any sequence of successful stake and unstake
/// operations, the recorded staked amount is the starting amount plus
/// everything deposited minus everything withdrawn.  Starting from an empty
/// record the withdrawals therefore never exceed the deposits (and the
/// amount, being unsigned, never drops below zero).
pub proof fn lemma_staked_amount_is_net_flow(trace: Seq<StakeAccount>, ops: Seq<BalanceOp>)
    requires
        trace_consistent(trace, ops),
    ensures
        trace.last().staked_amount == trace.first().staked_amount + deposits_total(ops)
            - withdrawals_total(ops),
        trace.first().staked_amount == 0 ==> withdrawals_total(ops) <= deposits_total(ops),
    decreases ops.len(),
{
    if ops.len() == 0 {
        assert(trace.last() == trace.first());
    } else {
        let n = ops.len() as int;
        assert(trace_consistent(trace.drop_last(), ops.drop_last())) by {
            assert forall|i: int| 0 <= i < ops.drop_last().len() implies balance_step(
                trace.drop_last()[i],
                #[trigger] ops.drop_last()[i],
                trace.drop_last()[i + 1],
            ) by {
                assert(balance_step(trace[i], ops[i], trace[i + 1]));
            }
        }
        lemma_staked_amount_is_net_flow(trace.drop_last(), ops.drop_last());
        assert(balance_step(trace[n - 1], ops[n - 1], trace[n]));
        assert(trace.drop_last().last() == trace[n - 1]);
        assert(trace.drop_last().first() == trace.first());
    }
}

} // verus!
