//! Withdrawal path of a constant-product liquidity pool: the payout math,
//! the slippage guard, and an all-or-nothing settlement over the pool's and
//! the user's token balances.
pub mod curve;
pub mod error;
pub mod withdraw;

pub use curve::{
    check_slippage, precision_scale, xy_withdraw_amounts_from_l, XYAmounts, DEFAULT_PRECISION,
};
pub use error::AmmError;
pub use withdraw::{AuthorityProof, Config, Withdraw};
