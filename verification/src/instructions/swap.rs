//! Swapping one asset for the other at the price of the constant product.
//!
//! A lock does not stop a swap: it gates deposits only.

use vstd::prelude::*;
use crate::curve::{spec_swap_output, swap_output, LiquidityPair, SwapResult};
use crate::error::{AmmDexError, AmmError, PoolConfigError};
use crate::identity::Identity;
use crate::ledger::{spec_transfer, transfer, Mint, TokenAccount};
use crate::state::PoolConfig;

verus! {

/// The accounts of a swap.
#[derive(Clone, Copy, Debug, PartialEq, Eq)]
pub struct Swap {
    /// The caller, on whose authority the input is paid.
    pub user: Identity,
    pub user_x_token: TokenAccount,
    pub user_y_token: TokenAccount,
    pub token_x_vault: TokenAccount,
    pub token_y_vault: TokenAccount,
    pub pool_config: PoolConfig,
    /// The pool's own authority, on which the vaults pay out.
    pub pool_authority: Identity,
    /// The share token.
    pub lp_token: Mint,
}

impl Swap {
    /// The direction that the flag stands for.
    pub open spec fn spec_direction(lp_pair_x: bool) -> LiquidityPair {
        if lp_pair_x {
            LiquidityPair::X
        } else {
            LiquidityPair::Y
        }
    }

    /// The reserve that the caller pays into.
    pub open spec fn reserve_in(&self, direction: LiquidityPair) -> u64 {
        match direction {
            LiquidityPair::X => self.token_x_vault.amount,
            LiquidityPair::Y => self.token_y_vault.amount,
        }
    }

    /// The reserve that pays the caller.
    pub open spec fn reserve_out(&self, direction: LiquidityPair) -> u64 {
        match direction {
            LiquidityPair::X => self.token_y_vault.amount,
            LiquidityPair::Y => self.token_x_vault.amount,
        }
    }

    /// What a swap of `amount` pays out, or the reason it is refused
    /// before any balance is touched.
    ///
    /// The refusals, in the order in which they are tested: the pool is not
    /// usable; `amount` or `min_swap_amount` is zero; a vault holds funds
    /// while no shares are outstanding (`SupplyZero`); those of the curve,
    /// priced on the reserves as they stand; the payment is below
    /// `min_swap_amount`.
    pub open spec fn spec_amounts(
        &self,
        direction: LiquidityPair,
        amount: u64,
        min_swap_amount: u64,
    ) -> Result<SwapResult, AmmError> {
        if !self.pool_config.usable() {
            Err(AmmError::Config(PoolConfigError::PoolNotInitialized))
        } else if amount == 0 || min_swap_amount == 0 {
            Err(AmmError::Config(PoolConfigError::InvalidAmount))
        } else if self.lp_token.supply == 0 && (self.token_x_vault.amount != 0
            || self.token_y_vault.amount != 0) {
            Err(AmmError::Dex(AmmDexError::SupplyZero))
        } else {
            match spec_swap_output(
                self.reserve_in(direction),
                self.reserve_out(direction),
                self.pool_config.lp_fee,
                amount,
            ) {
                Err(e) => Err(e),
                Ok(out) => if out < min_swap_amount {
                    Err(AmmError::Dex(AmmDexError::SlippageToleranceExceeded))
                } else {
                    Ok(SwapResult { deposit: amount, withdraw: out })
                },
            }
        }
    }

    /// The accounts after the caller has paid `amount` into the vault of
    /// the asset that `direction` names, or the reason the ledger refuses.
    pub open spec fn spec_deposit_to_vault(&self, direction: LiquidityPair, amount: u64) -> Result<
        Swap,
        AmmError,
    > {
        match direction {
            LiquidityPair::X => match spec_transfer(
                self.user_x_token,
                self.token_x_vault,
                amount,
                self.user,
            ) {
                Err(e) => Err(e),
                Ok((user, vault)) => Ok(Swap { user_x_token: user, token_x_vault: vault, ..*self }),
            },
            LiquidityPair::Y => match spec_transfer(
                self.user_y_token,
                self.token_y_vault,
                amount,
                self.user,
            ) {
                Err(e) => Err(e),
                Ok((user, vault)) => Ok(Swap { user_y_token: user, token_y_vault: vault, ..*self }),
            },
        }
    }

    /// The accounts after the vault of the asset that `direction` names
    /// has paid `amount` to the caller, or the reason the ledger refuses.
    pub open spec fn spec_withdraw_from_vault(
        &self,
        direction: LiquidityPair,
        amount: u64,
    ) -> Result<Swap, AmmError> {
        match direction {
            LiquidityPair::X => match spec_transfer(
                self.token_x_vault,
                self.user_x_token,
                amount,
                self.pool_authority,
            ) {
                Err(e) => Err(e),
                Ok((vault, user)) => Ok(Swap { user_x_token: user, token_x_vault: vault, ..*self }),
            },
            LiquidityPair::Y => match spec_transfer(
                self.token_y_vault,
                self.user_y_token,
                amount,
                self.pool_authority,
            ) {
                Err(e) => Err(e),
                Ok((vault, user)) => Ok(Swap { user_y_token: user, token_y_vault: vault, ..*self }),
            },
        }
    }

    /// The asset that `direction` pays out.
    pub open spec fn other(direction: LiquidityPair) -> LiquidityPair {
        match direction {
            LiquidityPair::X => LiquidityPair::Y,
            LiquidityPair::Y => LiquidityPair::X,
        }
    }

    /// The accounts after a swap together with what it moved, or the reason
    /// it is refused: the whole input goes into one vault on the caller's
    /// authority, then the payment comes out of the other on the pool's.
    pub open spec fn spec_handle_swap(
        &self,
        lp_pair_x: bool,
        amount: u64,
        min_swap_amount: u64,
    ) -> Result<(Swap, SwapResult), AmmError> {
        let direction = Self::spec_direction(lp_pair_x);
        match self.spec_amounts(direction, amount, min_swap_amount) {
            Err(e) => Err(e),
            Ok(moved) => match self.spec_deposit_to_vault(direction, moved.deposit) {
                Err(e) => Err(e),
                Ok(paid_in) => match paid_in.spec_withdraw_from_vault(
                    Self::other(direction),
                    moved.withdraw,
                ) {
                    Err(e) => Err(e),
                    Ok(after) => Ok((after, moved)),
                },
            },
        }
    }

    /// What a swap of `amount` moves, without touching a balance.
    pub fn amounts(&self, direction: LiquidityPair, amount: u64, min_swap_amount: u64) -> (r:
        Result<SwapResult, AmmError>)
        ensures
            r == self.spec_amounts(direction, amount, min_swap_amount),
            r is Ok ==> r->Ok_0.withdraw < self.reserve_out(direction),
    {
        if !self.pool_config.is_usable() {
            return Err(AmmError::Config(PoolConfigError::PoolNotInitialized));
        }
        if amount == 0 || min_swap_amount == 0 {
            return Err(AmmError::Config(PoolConfigError::InvalidAmount));
        }
        if self.lp_token.supply == 0 && (self.token_x_vault.amount != 0
            || self.token_y_vault.amount != 0) {
            return Err(AmmError::Dex(AmmDexError::SupplyZero));
        }
        let (reserve_in, reserve_out): (u64, u64) = match direction {
            LiquidityPair::X => (self.token_x_vault.amount, self.token_y_vault.amount),
            LiquidityPair::Y => (self.token_y_vault.amount, self.token_x_vault.amount),
        };
        let out: u64 = match swap_output(reserve_in, reserve_out, self.pool_config.lp_fee, amount) {
            Ok(out) => out,
            Err(e) => {
                return Err(e);
            },
        };
        if out < min_swap_amount {
            return Err(AmmError::Dex(AmmDexError::SlippageToleranceExceeded));
        }
        Ok(SwapResult { deposit: amount, withdraw: out })
    }

    /// Pays `amount` from the caller into the vault of the asset that
    /// `direction` names.
    pub fn deposit_to_vault(&mut self, direction: LiquidityPair, amount: u64) -> (r: Result<
        (),
        AmmError,
    >)
        ensures
            match old(self).spec_deposit_to_vault(direction, amount) {
                Ok(after) => r is Ok && *final(self) == after,
                Err(e) => r == Err::<(), AmmError>(e) && *final(self) == *old(self),
            },
    {
        let user: Identity = self.user;
        match direction {
            LiquidityPair::X => transfer(
                &mut self.user_x_token,
                &mut self.token_x_vault,
                amount,
                &user,
            ),
            LiquidityPair::Y => transfer(
                &mut self.user_y_token,
                &mut self.token_y_vault,
                amount,
                &user,
            ),
        }
    }

    /// Pays `amount` to the caller out of the vault of the asset that
    /// `direction` names.
    pub fn withdraw_from_vault(&mut self, direction: LiquidityPair, amount: u64) -> (r: Result<
        (),
        AmmError,
    >)
        ensures
            match old(self).spec_withdraw_from_vault(direction, amount) {
                Ok(after) => r is Ok && *final(self) == after,
                Err(e) => r == Err::<(), AmmError>(e) && *final(self) == *old(self),
            },
    {
        let authority: Identity = self.pool_authority;
        match direction {
            LiquidityPair::X => transfer(
                &mut self.token_x_vault,
                &mut self.user_x_token,
                amount,
                &authority,
            ),
            LiquidityPair::Y => transfer(
                &mut self.token_y_vault,
                &mut self.user_y_token,
                amount,
                &authority,
            ),
        }
    }

    /// Swaps `amount` of one asset for at least `min_swap_amount` of the
    /// other: asset X for asset Y where `lp_pair_x` is set, asset Y for
    /// asset X where it is not.
    ///
    /// The price is taken on the vaults' balances as this call finds them.
    /// On success the accounts hold the new balances and the result is what
    /// was moved; on refusal no account has changed.
    pub fn handle_swap(&mut self, lp_pair_x: bool, amount: u64, min_swap_amount: u64) -> (r: Result<
        SwapResult,
        AmmError,
    >)
        ensures
            match old(self).spec_handle_swap(lp_pair_x, amount, min_swap_amount) {
                Ok((after, moved)) => r == Ok::<SwapResult, AmmError>(moved) && *final(self)
                    == after,
                Err(e) => r == Err::<SwapResult, AmmError>(e) && *final(self) == *old(self),
            },
    {
        let direction = if lp_pair_x {
            LiquidityPair::X
        } else {
            LiquidityPair::Y
        };
        let other = if lp_pair_x {
            LiquidityPair::Y
        } else {
            LiquidityPair::X
        };
        let moved = match self.amounts(direction, amount, min_swap_amount) {
            Ok(moved) => moved,
            Err(e) => {
                return Err(e);
            },
        };
        let mut next: Swap = *self;
        match next.deposit_to_vault(direction, moved.deposit) {
            Ok(()) => {},
            Err(e) => {
                return Err(e);
            },
        }
        match next.withdraw_from_vault(other, moved.withdraw) {
            Ok(()) => {},
            Err(e) => {
                return Err(e);
            },
        }
        *self = next;
        Ok(moved)
    }
}

} // verus!
