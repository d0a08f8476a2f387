//! Errors of the lending rules.
use vstd::prelude::*;

verus! {

/// Failures of the lending computations. `InvalidAccountData` stands for the
/// runtime's invalid-account-data error; the others are the lending program's
/// own error codes.
#[derive(Clone, Copy, Debug, PartialEq, Eq, Structural)]
pub enum LendingError {
    /// A computation left the range of its integer type.
    MathOverflow,
    /// The reserve does not hold enough liquidity.
    InsufficientLiquidity,
    /// The borrow value exceeds the allowed maximum.
    BorrowTooLarge,
    /// The borrow is too small to leave anything after fees.
    BorrowTooSmall,
    /// A cumulative borrow rate went down.
    NegativeInterestRate,
    /// The obligation has no deposits.
    ObligationDepositsEmpty,
    /// No deposit of the obligation belongs to the given reserve.
    InvalidObligationCollateral,
    /// The obligation already holds the most deposits and borrows allowed.
    ObligationReserveLimit,
    /// The obligation has no borrows.
    ObligationBorrowsEmpty,
    /// No borrow of the obligation belongs to the given reserve.
    InvalidObligationLiquidity,
    /// Account data that cannot be read as the expected state.
    InvalidAccountData,
}

} // verus!
