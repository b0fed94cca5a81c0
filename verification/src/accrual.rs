use crate::account::StakeAccount;
use crate::errors::StakeError;
use vstd::arithmetic::div_mod::{
    lemma_div_is_ordered, lemma_div_multiples_vanish, lemma_fundamental_div_mod, lemma_mod_bound,
};
use vstd::arithmetic::mul::lemma_mul_inequality;
use vstd::prelude::*;

verus! {

/// Raw points accrued by one full currency unit staked for one day.
pub const POINTS_PER_SOL_PER_DAY: u64 = 1_000_000;

/// Minor currency units per full currency unit.
pub const LAMPORTS_PER_SOL: u64 = 1_000_000_000;

/// Seconds in one accrual day.
pub const SECONDS_PER_DAY: u64 = 86_400;

/// Raw points are scaled by this factor; the displayed value is the truncated
/// integer quotient.
pub const PRECISION_FACTOR: u64 = 1_000_000;

/// Raw points earned by `staked` minor units held for `elapsed` seconds:
/// `staked * elapsed * POINTS_PER_SOL_PER_DAY / LAMPORTS_PER_SOL /
/// SECONDS_PER_DAY`, every division truncating.
pub open spec fn points_earned(staked: int, elapsed: int) -> int {
    staked * elapsed * (POINTS_PER_SOL_PER_DAY as int) / (LAMPORTS_PER_SOL as int) / (
    SECONDS_PER_DAY as int)
}

/// Points earned over an elapsed window, computed in 128-bit intermediates so
/// no in-range input pair overflows silently; every step is checked and any
/// overflow — of the scaled product or of the final 64-bit result — aborts
/// with `Overflow`.
pub fn calculate_points_earned(staked: u64, elapsed: u64) -> (r: Result<u64, StakeError>)
    ensures
        r is Ok <==> ((staked as int) * (elapsed as int) * (POINTS_PER_SOL_PER_DAY as int)
            <= u128::MAX as int && points_earned(staked as int, elapsed as int)
            <= u64::MAX as int),
        r is Ok ==> r->Ok_0 == points_earned(staked as int, elapsed as int),
        r is Err ==> r->Err_0 == StakeError::Overflow,
{
    proof {
        assert((staked as int) * (elapsed as int) <= u128::MAX as int) by (nonlinear_arith)
            requires
                staked <= u64::MAX,
                elapsed <= u64::MAX,
        ;
    }
    let product: u128 = (staked as u128) * (elapsed as u128);
    let cap: u128 = u128::MAX / (POINTS_PER_SOL_PER_DAY as u128);
    if product > cap {
        proof {
            assert((product as int) * (POINTS_PER_SOL_PER_DAY as int) > u128::MAX as int) by {
                if (product as int) * (POINTS_PER_SOL_PER_DAY as int) <= u128::MAX as int {
                    lemma_div_is_ordered(
                        (product as int) * (POINTS_PER_SOL_PER_DAY as int),
                        u128::MAX as int,
                        POINTS_PER_SOL_PER_DAY as int,
                    );
                    lemma_div_multiples_vanish(product as int, POINTS_PER_SOL_PER_DAY as int);
                }
            }
        }
        return Err(StakeError::Overflow);
    }
    proof {
        lemma_mul_inequality(
            product as int,
            u128::MAX as int / (POINTS_PER_SOL_PER_DAY as int),
            POINTS_PER_SOL_PER_DAY as int,
        );
        lemma_fundamental_div_mod(u128::MAX as int, POINTS_PER_SOL_PER_DAY as int);
        lemma_mod_bound(u128::MAX as int, POINTS_PER_SOL_PER_DAY as int);
    }
    let scaled: u128 = product * (POINTS_PER_SOL_PER_DAY as u128);
    let points_wide: u128 = scaled / (LAMPORTS_PER_SOL as u128) / (SECONDS_PER_DAY as u128);
    if points_wide > u64::MAX as u128 {
        return Err(StakeError::Overflow);
    }
    Ok(points_wide as u64)
}

/// True when `now` does not precede the record's last settlement and the
/// elapsed window fits the signed timestamp range.  Settlement defensively
/// rejects any clock value outside this (a monotonic clock never produces
/// one).
pub open spec fn timestamp_ok(rec: StakeAccount, now: i64) -> bool {
    0 <= now - rec.last_update_time <= i64::MAX as int
}

/// Raw points the record accrues between its last settlement and `now`.
pub open spec fn accrual_of(rec: StakeAccount, now: i64) -> int {
    points_earned(rec.staked_amount as int, now - rec.last_update_time)
}

/// True exactly when settlement of `rec` at `now` succeeds: the clock value is
/// acceptable, the scaled product fits 128 bits, and the new point total fits
/// 64 bits.
pub open spec fn can_settle(rec: StakeAccount, now: i64) -> bool {
    &&& timestamp_ok(rec, now)
    &&& (rec.staked_amount as int) * (now - rec.last_update_time) * (POINTS_PER_SOL_PER_DAY as int)
        <= u128::MAX as int
    &&& rec.total_points + accrual_of(rec, now) <= u64::MAX as int
}

/// The record after a successful settlement at `now`: points rolled forward,
/// the accrual clock advanced, everything else untouched.
pub open spec fn settled(rec: StakeAccount, now: i64) -> StakeAccount {
    StakeAccount {
        owner: rec.owner,
        staked_amount: rec.staked_amount,
        total_points: (rec.total_points + accrual_of(rec, now)) as u64,
        last_update_time: now,
        bump: rec.bump,
    }
}

/// Rolls unsettled points into the record and advances its accrual clock to
/// `current_time` — even when nothing accrued, so no unbounded elapsed window
/// can build up silently.  All-or-nothing: on any error the record is exactly
/// as it was.
pub fn update_points(stake_data: &mut StakeAccount, current_time: i64) -> (r: Result<
    (),
    StakeError,
>)
    ensures
        r is Ok <==> can_settle(*old(stake_data), current_time),
        r is Ok ==> *final(stake_data) == settled(*old(stake_data), current_time),
        r is Err ==> *final(stake_data) == *old(stake_data),
        r is Err ==> (r->Err_0 == StakeError::InvalidTimestamp <==> !timestamp_ok(
            *old(stake_data),
            current_time,
        )),
        r is Err && timestamp_ok(*old(stake_data), current_time) ==> r->Err_0
            == StakeError::Overflow,
{
    let elapsed_wide: i128 = (current_time as i128) - (stake_data.last_update_time as i128);
    if elapsed_wide < 0 || elapsed_wide > i64::MAX as i128 {
        return Err(StakeError::InvalidTimestamp);
    }
    let elapsed: u64 = elapsed_wide as u64;
    proof {
        // With no window or no balance the accrual term is zero and every
        // checked step trivially fits.
        if elapsed == 0 || stake_data.staked_amount == 0 {
            assert((stake_data.staked_amount as int) * (elapsed as int) * (
            POINTS_PER_SOL_PER_DAY as int) == 0) by (nonlinear_arith)
                requires
                    elapsed == 0 || stake_data.staked_amount == 0,
            ;
            assert(accrual_of(*stake_data, current_time) == 0);
        }
    }
    if elapsed > 0 && stake_data.staked_amount > 0 {
        let new_points: u64 = match calculate_points_earned(stake_data.staked_amount, elapsed) {
            Ok(p) => p,
            Err(e) => { return Err(e); },
        };
        if new_points > u64::MAX - stake_data.total_points {
            return Err(StakeError::Overflow);
        }
        stake_data.total_points = stake_data.total_points + new_points;
    }
    stake_data.last_update_time = current_time;
    Ok(())
}

} // verus!
