use crate::errors::StakeError;
use vstd::prelude::*;

verus! {

/// The per-participant accounting record, kept at an address deterministically
/// derived from the owner's identity.  It never holds funds itself: the paired
/// escrow sub-account does.
#[derive(Clone, Copy, Debug, PartialEq, Eq, Structural)]
pub struct StakeAccount {
    /// Identity of the participant who may authorize mutations.
    pub owner: u64,
    /// Currently escrowed balance, in minor currency units.  Never more than
    /// the escrow sub-account's real balance.
    pub staked_amount: u64,
    /// Accrued-but-unclaimed raw reward points, scaled by
    /// [`crate::accrual::PRECISION_FACTOR`].
    pub total_points: u64,
    /// Timestamp (seconds) of the last point settlement.
    pub last_update_time: i64,
    /// Derivation nonce fixing how the record's and the escrow's addresses are
    /// reconstructed and authorized.  Set at creation, never mutated.
    pub bump: u8,
}

/// Creates the record for `owner`: zero balance, zero points, accrual clock
/// started at `current_time`, and the derivation nonce stored for later
/// custody proofs.  Fails with `AlreadyExists` if a record is already present
/// at the derived address (`existing`), leaving that record untouched.
pub fn create_pda_account(
    existing: &Option<StakeAccount>,
    owner: u64,
    bump: u8,
    current_time: i64,
) -> (r: Result<StakeAccount, StakeError>)
    ensures
        r is Ok <==> existing is None,
        r is Ok ==> r->Ok_0 == (StakeAccount {
            owner,
            staked_amount: 0,
            total_points: 0,
            last_update_time: current_time,
            bump,
        }),
        r is Err ==> r->Err_0 == StakeError::AlreadyExists,
{
    match existing {
        Option::Some(_) => Err(StakeError::AlreadyExists),
        Option::None => Ok(
            StakeAccount {
                owner,
                staked_amount: 0,
                total_points: 0,
                last_update_time: current_time,
                bump,
            },
        ),
    }
}

} // verus!
