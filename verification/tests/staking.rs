use stake_contract::account::{create_pda_account, StakeAccount};
use stake_contract::accrual::{
    calculate_points_earned, update_points, LAMPORTS_PER_SOL, POINTS_PER_SOL_PER_DAY,
    PRECISION_FACTOR, SECONDS_PER_DAY,
};
use stake_contract::errors::StakeError;
use stake_contract::ledger::{claim_points, get_points, stake, unstake};

fn fresh(owner: u64, now: i64) -> StakeAccount {
    create_pda_account(&None, owner, 254, now).unwrap()
}

#[test]
fn one_unit_for_one_day_earns_the_daily_rate() {
    assert_eq!(
        calculate_points_earned(LAMPORTS_PER_SOL, SECONDS_PER_DAY),
        Ok(POINTS_PER_SOL_PER_DAY)
    );
}

#[test]
fn zero_elapsed_earns_nothing() {
    assert_eq!(calculate_points_earned(0, 0), Ok(0));
    assert_eq!(calculate_points_earned(1, 0), Ok(0));
    assert_eq!(calculate_points_earned(1_000_000_000, 0), Ok(0));
    assert_eq!(calculate_points_earned(u64::MAX, 0), Ok(0));
}

#[test]
fn zero_stake_earns_nothing() {
    assert_eq!(calculate_points_earned(0, 1), Ok(0));
    assert_eq!(calculate_points_earned(0, 86_400), Ok(0));
    assert_eq!(calculate_points_earned(0, u64::MAX), Ok(0));
}

#[test]
fn half_a_day_earns_half_the_rate() {
    assert_eq!(
        calculate_points_earned(LAMPORTS_PER_SOL, SECONDS_PER_DAY / 2),
        Ok(POINTS_PER_SOL_PER_DAY / 2)
    );
}

#[test]
fn sub_unit_accrual_truncates() {
    // 1 lamport for 1 second: 1 * 1 * 1_000_000 / 1_000_000_000 = 0 (truncated).
    assert_eq!(calculate_points_earned(1, 1), Ok(0));
}

#[test]
fn oversized_product_overflows() {
    assert_eq!(
        calculate_points_earned(u64::MAX, u64::MAX),
        Err(StakeError::Overflow)
    );
}

#[test]
fn oversized_result_overflows() {
    // The 128-bit intermediates fit, but the final point count exceeds 64 bits.
    assert_eq!(
        calculate_points_earned(u64::MAX, 1 << 33),
        Err(StakeError::Overflow)
    );
}

#[test]
fn creation_initializes_the_record() {
    let rec = create_pda_account(&None, 77, 253, 1_700_000_000).unwrap();
    assert_eq!(rec.owner, 77);
    assert_eq!(rec.staked_amount, 0);
    assert_eq!(rec.total_points, 0);
    assert_eq!(rec.last_update_time, 1_700_000_000);
    assert_eq!(rec.bump, 253);
}

#[test]
fn duplicate_creation_is_rejected() {
    let rec = fresh(77, 0);
    assert_eq!(
        create_pda_account(&Some(rec), 77, 254, 5),
        Err(StakeError::AlreadyExists)
    );
}

#[test]
fn settlement_accrues_and_advances_the_clock() {
    let mut rec = fresh(1, 0);
    rec.staked_amount = LAMPORTS_PER_SOL;
    assert_eq!(update_points(&mut rec, 86_400), Ok(()));
    assert_eq!(rec.total_points, POINTS_PER_SOL_PER_DAY);
    assert_eq!(rec.last_update_time, 86_400);
    assert_eq!(rec.staked_amount, LAMPORTS_PER_SOL);
}

#[test]
fn settlement_is_idempotent() {
    let mut rec = fresh(1, 0);
    rec.staked_amount = 5 * LAMPORTS_PER_SOL;
    assert_eq!(update_points(&mut rec, 100_000), Ok(()));
    let after_first = rec;
    assert_eq!(update_points(&mut rec, 100_000), Ok(()));
    assert_eq!(rec, after_first);
}

#[test]
fn settlement_rejects_a_clock_that_ran_backwards() {
    let mut rec = fresh(1, 1_000);
    rec.staked_amount = 42;
    let before = rec;
    assert_eq!(update_points(&mut rec, 999), Err(StakeError::InvalidTimestamp));
    assert_eq!(rec, before);
}

#[test]
fn settlement_rejects_an_oversized_window() {
    let mut rec = fresh(1, i64::MIN);
    let before = rec;
    assert_eq!(
        update_points(&mut rec, i64::MAX),
        Err(StakeError::InvalidTimestamp)
    );
    assert_eq!(rec, before);
}

#[test]
fn settlement_overflow_leaves_the_record_unchanged() {
    let mut rec = fresh(1, 0);
    rec.staked_amount = u64::MAX;
    rec.total_points = u64::MAX;
    let before = rec;
    assert_eq!(update_points(&mut rec, 86_400), Err(StakeError::Overflow));
    assert_eq!(rec, before);
}

#[test]
fn settlement_advances_the_clock_even_with_nothing_staked() {
    let mut rec = fresh(1, 0);
    assert_eq!(update_points(&mut rec, 500), Ok(()));
    assert_eq!(rec.last_update_time, 500);
    assert_eq!(rec.total_points, 0);
}

#[test]
fn query_rejects_a_clock_that_ran_backwards() {
    let mut rec = fresh(1, 1_000);
    rec.staked_amount = 42;
    assert_eq!(get_points(&rec, 1, 999), Err(StakeError::InvalidTimestamp));
}

#[test]
fn stake_then_query_a_day_later() {
    // Record created at t = 0 with zero balance; one full unit staked at t = 0.
    let mut rec = fresh(7, 0);
    let mut vault: u64 = 0;
    assert_eq!(stake(&mut rec, &mut vault, 7, 1_000_000_000, 0), Ok(()));
    assert_eq!(rec.staked_amount, 1_000_000_000);
    assert_eq!(rec.total_points, 0);
    assert_eq!(vault, 1_000_000_000);
    // One day later the raw accrual is exactly the configured per-day rate...
    let mut settled_copy = rec;
    assert_eq!(update_points(&mut settled_copy, 86_400), Ok(()));
    assert_eq!(settled_copy.total_points, POINTS_PER_SOL_PER_DAY);
    // ...which the query reports as a display value, without mutating the record.
    assert_eq!(
        get_points(&rec, 7, 86_400),
        Ok(POINTS_PER_SOL_PER_DAY / PRECISION_FACTOR)
    );
    assert_eq!(rec.total_points, 0);
    assert_eq!(rec.last_update_time, 0);
}

#[test]
fn stake_rejects_zero_amount() {
    let mut rec = fresh(7, 0);
    let mut vault: u64 = 0;
    let before = rec;
    assert_eq!(
        stake(&mut rec, &mut vault, 7, 0, 10),
        Err(StakeError::InvalidAmount)
    );
    assert_eq!(rec, before);
    assert_eq!(vault, 0);
}

#[test]
fn unstake_rejects_zero_amount() {
    let mut rec = fresh(7, 0);
    rec.staked_amount = 100;
    let mut vault: u64 = 100;
    let before = rec;
    assert_eq!(
        unstake(&mut rec, &mut vault, 7, 0, 10),
        Err(StakeError::InvalidAmount)
    );
    assert_eq!(rec, before);
    assert_eq!(vault, 100);
}

#[test]
fn unauthorized_callers_change_nothing() {
    let mut rec = fresh(7, 0);
    rec.staked_amount = 500;
    rec.total_points = 123;
    let mut vault: u64 = 500;
    let before = rec;

    assert_eq!(
        stake(&mut rec, &mut vault, 8, 10, 100),
        Err(StakeError::Unauthorized)
    );
    assert_eq!(rec, before);
    assert_eq!(vault, 500);

    assert_eq!(
        unstake(&mut rec, &mut vault, 8, 10, 100),
        Err(StakeError::Unauthorized)
    );
    assert_eq!(rec, before);
    assert_eq!(vault, 500);

    assert_eq!(claim_points(&mut rec, 8, 100), Err(StakeError::Unauthorized));
    assert_eq!(rec, before);

    assert_eq!(get_points(&rec, 8, 100), Err(StakeError::Unauthorized));
    assert_eq!(rec, before);
}

#[test]
fn overdrawn_unstake_is_rejected() {
    let mut rec = fresh(7, 0);
    rec.staked_amount = 100;
    let mut vault: u64 = 100;
    let before = rec;
    assert_eq!(
        unstake(&mut rec, &mut vault, 7, 101, 0),
        Err(StakeError::InsufficientStake)
    );
    assert_eq!(rec, before);
    assert_eq!(vault, 100);
}

#[test]
fn escrow_shortfall_is_its_own_error() {
    // The recorded balance says 100 but the escrow only holds 50: the transfer
    // must fail with the desync-signalling error, not InsufficientStake.
    let mut rec = fresh(7, 0);
    rec.staked_amount = 100;
    let mut vault: u64 = 50;
    let before = rec;
    assert_eq!(
        unstake(&mut rec, &mut vault, 7, 80, 0),
        Err(StakeError::InsufficientVaultBalance)
    );
    assert_eq!(rec, before);
    assert_eq!(vault, 50);
}

#[test]
fn back_to_back_stakes_accrue_nothing_between_them() {
    let a: u64 = 123_456_789;
    let b: u64 = 987_654_321;
    let mut rec = fresh(7, 50);
    let mut vault: u64 = 0;
    assert_eq!(stake(&mut rec, &mut vault, 7, a, 50), Ok(()));
    assert_eq!(stake(&mut rec, &mut vault, 7, b, 50), Ok(()));
    assert_eq!(rec.staked_amount, a + b);
    assert_eq!(rec.total_points, 0);
    assert_eq!(vault, a + b);
}

#[test]
fn staking_settles_with_the_pre_deposit_weight() {
    let mut rec = fresh(7, 0);
    let mut vault: u64 = 0;
    assert_eq!(stake(&mut rec, &mut vault, 7, LAMPORTS_PER_SOL, 0), Ok(()));
    // A day later a second deposit lands; the elapsed day accrues on the old
    // balance only.
    assert_eq!(
        stake(&mut rec, &mut vault, 7, LAMPORTS_PER_SOL, 86_400),
        Ok(())
    );
    assert_eq!(rec.total_points, POINTS_PER_SOL_PER_DAY);
    assert_eq!(rec.staked_amount, 2 * LAMPORTS_PER_SOL);
    assert_eq!(rec.last_update_time, 86_400);
}

#[test]
fn stake_overflow_of_the_recorded_balance_is_rejected() {
    let mut rec = fresh(7, 0);
    rec.staked_amount = u64::MAX - 5;
    let mut vault: u64 = 0;
    let before = rec;
    assert_eq!(
        stake(&mut rec, &mut vault, 7, 6, 0),
        Err(StakeError::Overflow)
    );
    assert_eq!(rec, before);
    assert_eq!(vault, 0);
}

#[test]
fn claim_reports_display_points_and_resets() {
    // 1.5 units for one day accrue 1_500_000 raw points: one display point,
    // the half point below the precision factor is discarded.
    let mut rec = fresh(7, 0);
    let mut vault: u64 = 0;
    assert_eq!(stake(&mut rec, &mut vault, 7, 1_500_000_000, 0), Ok(()));
    assert_eq!(claim_points(&mut rec, 7, 86_400), Ok(1));
    assert_eq!(rec.total_points, 0);
    assert_eq!(rec.last_update_time, 86_400);
    // Claiming again at once finds nothing: the truncated remainder is gone.
    assert_eq!(claim_points(&mut rec, 7, 86_400), Ok(0));
    assert_eq!(rec.total_points, 0);
}

#[test]
fn query_reports_what_claim_would_pay() {
    let mut rec = fresh(7, 0);
    let mut vault: u64 = 0;
    assert_eq!(stake(&mut rec, &mut vault, 7, 3 * LAMPORTS_PER_SOL, 0), Ok(()));
    let quoted = get_points(&rec, 7, 43_200).unwrap();
    let paid = claim_points(&mut rec, 7, 43_200).unwrap();
    assert_eq!(quoted, paid);
}

#[test]
fn staked_amount_is_the_net_of_all_flows() {
    let mut rec = fresh(7, 0);
    let mut vault: u64 = 0;
    let deposits: [u64; 3] = [1_000, 2_500, 4_000];
    let withdrawals: [u64; 2] = [500, 3_000];
    for (i, d) in deposits.iter().enumerate() {
        assert_eq!(stake(&mut rec, &mut vault, 7, *d, i as i64), Ok(()));
    }
    for (i, w) in withdrawals.iter().enumerate() {
        assert_eq!(unstake(&mut rec, &mut vault, 7, *w, 3 + i as i64), Ok(()));
    }
    let expected: u64 =
        deposits.iter().sum::<u64>() - withdrawals.iter().sum::<u64>();
    assert_eq!(rec.staked_amount, expected);
    assert_eq!(vault, expected);
}
