//! A custodial staking ledger.
//!
//! Each participant owns one [`account::StakeAccount`] record and a paired
//! escrow sub-account ("vault") that holds the actual funds.  Points accrue on
//! the staked balance in proportion to elapsed time, using fixed-rate,
//! fixed-point arithmetic with overflow-checked 128-bit intermediates.  Every
//! balance-affecting operation first settles accrual up to the host-supplied
//! timestamp, so points always reflect time strictly up to the last mutation.
//!
//! The host environment (clock, fund transfers, record storage, signature
//! checks) stays outside: operations take the trusted timestamp, the caller's
//! identity and the escrow balance as plain values.

pub mod account;
pub mod accrual;
pub mod errors;
pub mod laws;
pub mod ledger;
