use vstd::prelude::*;

verus! {

/// The ways a withdrawal can fail. Every one of them aborts the whole
/// withdrawal and leaves all balances as they were.
#[derive(Clone, Copy, Debug, PartialEq, Eq, Structural)]
pub enum AmmError {
    /// Division by an empty supply, a burn above the supply, or an
    /// intermediate product that does not fit the working width.
    ArithmeticError,
    /// A computed payout is below the caller's minimum.
    SlippageExceeded,
    /// A vault cannot pay, a receiving balance would overflow, or the
    /// authority presented is not the pool's own.
    TransferError,
    /// The user holds fewer liquidity tokens than the burn asks for.
    BurnError,
}

} // verus!
