use vstd::prelude::*;

verus! {

/// Every way an operation on the ledger can fail.  An error always aborts the
/// whole operation: no partial state change is ever visible afterwards.
#[derive(Clone, Copy, Debug, PartialEq, Eq, Structural)]
pub enum StakeError {
    /// A stake or unstake of zero units.
    InvalidAmount,
    /// The caller is not the record's owner.
    Unauthorized,
    /// A checked arithmetic step would exceed its type's range.
    Overflow,
    /// The clock ran backwards, or the elapsed window does not fit the signed
    /// timestamp range.
    InvalidTimestamp,
    /// A balance subtraction would go below zero (defensive; unreachable after
    /// the balance checks the operations perform).
    Underflow,
    /// A withdrawal larger than the recorded staked amount.
    InsufficientStake,
    /// A withdrawal larger than the escrow sub-account's actual balance: the
    /// internal accounting and the real escrow funds have diverged.
    InsufficientVaultBalance,
    /// A record for this owner already exists at the derived address.
    AlreadyExists,
}

} // verus!
