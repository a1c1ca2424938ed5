//! The reasons for which an operation on a pool is refused.

use vstd::prelude::*;

verus! {

/// Refusals that concern the pool's configuration and the caller's amounts.
#[derive(Clone, Copy, Debug, PartialEq, Eq, Structural)]
pub enum PoolConfigError {
    /// The pool was never initialized, or no owner is recorded for it.
    PoolNotInitialized,
    /// The owner given is not acceptable.
    InvalidOwner,
    /// An amount is zero where it must be positive, or a fee rate is above 100%.
    InvalidAmount,
    /// The pool is locked.
    PoolLocked,
}

/// Refusals that concern the exchange itself and the token ledger under it.
#[derive(Clone, Copy, Debug, PartialEq, Eq, Structural)]
pub enum AmmDexError {
    /// The swap cannot be priced, or would empty the reserve it pays from.
    InvalidSwap,
    /// The price moved past the bound that the caller gave.
    SlippageToleranceExceeded,
    /// The caller is not the authority that the operation needs.
    InvalidAuthority,
    /// A result does not fit the 64 bits in which amounts are stored.
    ArithmeticOverflow,
    /// An account holds less than is to be taken from it.
    InsufficientFunds,
    /// No shares are outstanding.
    SupplyZero,
}

/// Any refusal of a pool operation.
#[derive(Clone, Copy, Debug, PartialEq, Eq, Structural)]
pub enum AmmError {
    Config(PoolConfigError),
    Dex(AmmDexError),
}

} // verus!
