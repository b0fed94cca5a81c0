use crate::account::StakeAccount;
use crate::accrual::{
    accrual_of, can_settle, settled, timestamp_ok, update_points, PRECISION_FACTOR,
};
use crate::errors::StakeError;
use vstd::prelude::*;

verus! {

/// Deposits `amount` minor units: settles accrual up to `current_time` with
/// the pre-deposit stake weight, then adds `amount` to both the recorded
/// balance and the escrow balance.  `vault_balance` models the escrow
/// sub-account's funds; the host moves the real funds in the same atomic
/// step.  Every check precedes every mutation, so on any error both the record
/// and the escrow balance are exactly as they were.
pub fn stake(
    stake_data: &mut StakeAccount,
    vault_balance: &mut u64,
    caller: u64,
    amount: u64,
    current_time: i64,
) -> (r: Result<(), StakeError>)
    ensures
        r is Ok <==> (amount > 0 && caller == old(stake_data).owner && can_settle(
            *old(stake_data),
            current_time,
        ) && old(stake_data).staked_amount + amount <= u64::MAX && *old(vault_balance) + amount
            <= u64::MAX),
        r is Ok ==> *final(stake_data) == (StakeAccount {
            staked_amount: (old(stake_data).staked_amount + amount) as u64,
            ..settled(*old(stake_data), current_time)
        }),
        r is Ok ==> *final(vault_balance) == *old(vault_balance) + amount,
        r is Err ==> *final(stake_data) == *old(stake_data) && *final(vault_balance) == *old(
            vault_balance,
        ),
        r is Err ==> (r->Err_0 == StakeError::InvalidAmount <==> amount == 0),
        r is Err && amount > 0 ==> (r->Err_0 == StakeError::Unauthorized <==> caller != old(
            stake_data,
        ).owner),
        r is Err && amount > 0 && caller == old(stake_data).owner ==> (r->Err_0
            == StakeError::InvalidTimestamp <==> !timestamp_ok(*old(stake_data), current_time)),
        r is Err && amount > 0 && caller == old(stake_data).owner && timestamp_ok(
            *old(stake_data),
            current_time,
        ) ==> r->Err_0 == StakeError::Overflow,
{
    if amount == 0 {
        return Err(StakeError::InvalidAmount);
    }
    if caller != stake_data.owner {
        return Err(StakeError::Unauthorized);
    }
    let mut updated: StakeAccount = *stake_data;
    match update_points(&mut updated, current_time) {
        Ok(()) => {},
        Err(e) => { return Err(e); },
    }
    if updated.staked_amount > u64::MAX - amount {
        return Err(StakeError::Overflow);
    }
    if *vault_balance > u64::MAX - amount {
        return Err(StakeError::Overflow);
    }
    updated.staked_amount = updated.staked_amount + amount;
    *vault_balance = *vault_balance + amount;
    *stake_data = updated;
    Ok(())
}

/// Withdraws `amount` minor units: settles accrual up to `current_time`, then
/// subtracts `amount` from the recorded balance and from the escrow balance.
/// Fails with `InsufficientStake` when the recorded balance is too small, and
/// with `InsufficientVaultBalance` when the escrow's real funds are — a desync
/// that never arises under correct custody.  Every check precedes every
/// mutation, so on any error both the record and the escrow balance are
/// exactly as they were.
pub fn unstake(
    stake_data: &mut StakeAccount,
    vault_balance: &mut u64,
    caller: u64,
    amount: u64,
    current_time: i64,
) -> (r: Result<(), StakeError>)
    ensures
        r is Ok <==> (amount > 0 && caller == old(stake_data).owner && can_settle(
            *old(stake_data),
            current_time,
        ) && amount <= old(stake_data).staked_amount && amount <= *old(vault_balance)),
        r is Ok ==> *final(stake_data) == (StakeAccount {
            staked_amount: (old(stake_data).staked_amount - amount) as u64,
            ..settled(*old(stake_data), current_time)
        }),
        r is Ok ==> *final(vault_balance) == *old(vault_balance) - amount,
        r is Err ==> *final(stake_data) == *old(stake_data) && *final(vault_balance) == *old(
            vault_balance,
        ),
        r is Err ==> (r->Err_0 == StakeError::InvalidAmount <==> amount == 0),
        r is Err && amount > 0 ==> (r->Err_0 == StakeError::Unauthorized <==> caller != old(
            stake_data,
        ).owner),
        r is Err && amount > 0 && caller == old(stake_data).owner ==> (r->Err_0
            == StakeError::InvalidTimestamp <==> !timestamp_ok(*old(stake_data), current_time)),
        r is Err && amount > 0 && caller == old(stake_data).owner ==> (r->Err_0
            == StakeError::InsufficientStake <==> (can_settle(*old(stake_data), current_time)
            && amount > old(stake_data).staked_amount)),
        r is Err && amount > 0 && caller == old(stake_data).owner ==> (r->Err_0
            == StakeError::InsufficientVaultBalance <==> (can_settle(
            *old(stake_data),
            current_time,
        ) && amount <= old(stake_data).staked_amount && amount > *old(vault_balance))),
        r is Err && amount > 0 && caller == old(stake_data).owner && timestamp_ok(
            *old(stake_data),
            current_time,
        ) && !can_settle(*old(stake_data), current_time) ==> r->Err_0 == StakeError::Overflow,
{
    if amount == 0 {
        return Err(StakeError::InvalidAmount);
    }
    if caller != stake_data.owner {
        return Err(StakeError::Unauthorized);
    }
    let mut updated: StakeAccount = *stake_data;
    match update_points(&mut updated, current_time) {
        Ok(()) => {},
        Err(e) => { return Err(e); },
    }
    if updated.staked_amount < amount {
        return Err(StakeError::InsufficientStake);
    }
    if *vault_balance < amount {
        return Err(StakeError::InsufficientVaultBalance);
    }
    updated.staked_amount = updated.staked_amount - amount;
    *vault_balance = *vault_balance - amount;
    *stake_data = updated;
    Ok(())
}

/// Settles accrual up to `current_time`, reports the accumulated points as a
/// display value (`total_points / PRECISION_FACTOR`, truncated), and resets
/// the raw total to zero.  Fractional raw points below the precision factor
/// are discarded, not carried forward.  On any error the record is exactly as
/// it was.
pub fn claim_points(stake_data: &mut StakeAccount, caller: u64, current_time: i64) -> (r: Result<
    u64,
    StakeError,
>)
    ensures
        r is Ok <==> (caller == old(stake_data).owner && can_settle(
            *old(stake_data),
            current_time,
        )),
        r is Ok ==> r->Ok_0 == (old(stake_data).total_points + accrual_of(
            *old(stake_data),
            current_time,
        )) / (PRECISION_FACTOR as int),
        r is Ok ==> *final(stake_data) == (StakeAccount {
            total_points: 0,
            ..settled(*old(stake_data), current_time)
        }),
        r is Err ==> *final(stake_data) == *old(stake_data),
        r is Err ==> (r->Err_0 == StakeError::Unauthorized <==> caller != old(stake_data).owner),
        r is Err && caller == old(stake_data).owner ==> (r->Err_0 == StakeError::InvalidTimestamp
            <==> !timestamp_ok(*old(stake_data), current_time)),
        r is Err && caller == old(stake_data).owner && timestamp_ok(
            *old(stake_data),
            current_time,
        ) ==> r->Err_0 == StakeError::Overflow,
{
    if caller != stake_data.owner {
        return Err(StakeError::Unauthorized);
    }
    match update_points(stake_data, current_time) {
        Ok(()) => {},
        Err(e) => { return Err(e); },
    }
    let claimed: u64 = stake_data.total_points / PRECISION_FACTOR;
    stake_data.total_points = 0;
    Ok(claimed)
}

/// Read-only query: reports the display points a settlement at `current_time`
/// would yield — the stored total plus the unsettled accrual for the elapsed
/// window — without touching the record.  Fails exactly where settlement
/// would.
pub fn get_points(stake_data: &StakeAccount, caller: u64, current_time: i64) -> (r: Result<
    u64,
    StakeError,
>)
    ensures
        r is Ok <==> (caller == stake_data.owner && can_settle(*stake_data, current_time)),
        r is Ok ==> r->Ok_0 == (stake_data.total_points + accrual_of(*stake_data, current_time))
            / (PRECISION_FACTOR as int),
        r is Err ==> (r->Err_0 == StakeError::Unauthorized <==> caller != stake_data.owner),
        r is Err && caller == stake_data.owner ==> (r->Err_0 == StakeError::InvalidTimestamp <==>
            !timestamp_ok(*stake_data, current_time)),
        r is Err && caller == stake_data.owner && timestamp_ok(*stake_data, current_time) ==> r
            ->Err_0 == StakeError::Overflow,
{
    if caller != stake_data.owner {
        return Err(StakeError::Unauthorized);
    }
    let mut scratch: StakeAccount = *stake_data;
    match update_points(&mut scratch, current_time) {
        Ok(()) => Ok(scratch.total_points / PRECISION_FACTOR),
        Err(e) => Err(e),
    }
}

} // verus!
