//! Removing liquidity: the caller's shares are burned and their part of
//! both vaults is paid out.
//!
//! A lock does not stop a withdrawal: whoever holds shares may always leave
//! the pool.

use vstd::prelude::*;
use crate::curve::{spec_withdraw_amounts, withdraw_amounts, LiquidityPair, XYAmounts};
use crate::error::{AmmDexError, AmmError, PoolConfigError};
use crate::identity::Identity;
use crate::ledger::{burn, spec_burn, spec_transfer, transfer, Mint, TokenAccount};
use crate::state::PoolConfig;

verus! {

/// The accounts of a withdrawal.
#[derive(Clone, Copy, Debug, PartialEq, Eq)]
pub struct Withdraw {
    /// The caller, on whose authority the shares are burned.
    pub user: Identity,
    pub user_x_token: TokenAccount,
    pub user_y_token: TokenAccount,
    pub token_x_vault: TokenAccount,
    pub token_y_vault: TokenAccount,
    pub pool_config: PoolConfig,
    /// The pool's own authority, on which the vaults pay out.
    pub pool_authority: Identity,
    /// The share token.
    pub lp_token: Mint,
    pub user_lp_token_ac: TokenAccount,
}

impl Withdraw {
    /// What `lp_amount` shares redeem from the two vaults: the shares' part
    /// of each, rounded down. It is refused with `SupplyZero` where no
    /// shares are outstanding, with `InsufficientFunds` where shares are
    /// outstanding while both vaults are empty, and with
    /// `ArithmeticOverflow` where a part does not fit 64 bits.
    pub open spec fn spec_calculate_withdraw_amounts(&self, lp_amount: u64) -> Result<
        XYAmounts,
        AmmError,
    > {
        if self.lp_token.supply == 0 {
            Err(AmmError::Dex(AmmDexError::SupplyZero))
        } else if self.token_x_vault.amount == 0 && self.token_y_vault.amount == 0 {
            Err(AmmError::Dex(AmmDexError::InsufficientFunds))
        } else {
            spec_withdraw_amounts(
                self.token_x_vault.amount,
                self.token_y_vault.amount,
                self.lp_token.supply,
                lp_amount,
            )
        }
    }

    /// What a withdrawal of `amount` shares pays, or the reason it is
    /// refused before any balance is touched.
    ///
    /// The refusals, in the order in which they are tested: the pool is not
    /// usable; `amount` is zero; those of
    /// [`Self::spec_calculate_withdraw_amounts`]; a payment is below the
    /// caller's minimum.
    pub open spec fn spec_amounts(&self, amount: u64, min_token_x: u64, min_token_y: u64) -> Result<
        XYAmounts,
        AmmError,
    > {
        if !self.pool_config.usable() {
            Err(AmmError::Config(PoolConfigError::PoolNotInitialized))
        } else if amount == 0 {
            Err(AmmError::Config(PoolConfigError::InvalidAmount))
        } else {
            match self.spec_calculate_withdraw_amounts(amount) {
                Err(e) => Err(e),
                Ok(paid) => if paid.x < min_token_x || paid.y < min_token_y {
                    Err(AmmError::Dex(AmmDexError::SlippageToleranceExceeded))
                } else {
                    Ok(paid)
                },
            }
        }
    }

    /// The accounts after the vault of `asset` has paid `amount` to the
    /// caller on the pool's authority, or the reason the ledger refuses.
    pub open spec fn spec_transfer_from_vault(&self, asset: LiquidityPair, amount: u64) -> Result<
        Withdraw,
        AmmError,
    > {
        match asset {
            LiquidityPair::X => match spec_transfer(
                self.token_x_vault,
                self.user_x_token,
                amount,
                self.pool_authority,
            ) {
                Err(e) => Err(e),
                Ok((vault, user)) => Ok(
                    Withdraw { token_x_vault: vault, user_x_token: user, ..*self },
                ),
            },
            LiquidityPair::Y => match spec_transfer(
                self.token_y_vault,
                self.user_y_token,
                amount,
                self.pool_authority,
            ) {
                Err(e) => Err(e),
                Ok((vault, user)) => Ok(
                    Withdraw { token_y_vault: vault, user_y_token: user, ..*self },
                ),
            },
        }
    }

    /// The accounts after `lp_amount` of the caller's shares were burned on
    /// the caller's authority, or the reason the ledger refuses.
    pub open spec fn spec_burn_lp_tokens(&self, lp_amount: u64) -> Result<Withdraw, AmmError> {
        match spec_burn(self.lp_token, self.user_lp_token_ac, lp_amount, self.user) {
            Err(e) => Err(e),
            Ok((lp, user_lp)) => Ok(Withdraw { lp_token: lp, user_lp_token_ac: user_lp, ..*self }),
        }
    }

    /// The accounts after a withdrawal of `amount` shares together with
    /// what it paid, or the reason it is refused.
    ///
    /// Once the payments are known, the shares are burned on the caller's
    /// authority, then asset X and asset Y are paid out of their vaults on
    /// the pool's authority. The first of the three that the ledger refuses
    /// decides the refusal.
    pub open spec fn spec_handle_withdraw(
        &self,
        amount: u64,
        min_token_x: u64,
        min_token_y: u64,
    ) -> Result<(Withdraw, XYAmounts), AmmError> {
        match self.spec_amounts(amount, min_token_x, min_token_y) {
            Err(e) => Err(e),
            Ok(paid) => match self.spec_burn_lp_tokens(amount) {
                Err(e) => Err(e),
                Ok(burned) => match burned.spec_transfer_from_vault(LiquidityPair::X, paid.x) {
                    Err(e) => Err(e),
                    Ok(paid_x) => match paid_x.spec_transfer_from_vault(LiquidityPair::Y, paid.y) {
                        Err(e) => Err(e),
                        Ok(after) => Ok((after, paid)),
                    },
                },
            },
        }
    }

    /// What `lp_amount` shares redeem from the two vaults.
    pub fn calculate_withdraw_amounts(&self, lp_amount: u64) -> (r: Result<XYAmounts, AmmError>)
        ensures
            r == self.spec_calculate_withdraw_amounts(lp_amount),
            self.lp_token.supply == 0 ==> r == Err::<XYAmounts, AmmError>(
                AmmError::Dex(AmmDexError::SupplyZero),
            ),
    {
        if self.lp_token.supply == 0 {
            return Err(AmmError::Dex(AmmDexError::SupplyZero));
        }
        if self.token_x_vault.amount == 0 && self.token_y_vault.amount == 0 {
            return Err(AmmError::Dex(AmmDexError::InsufficientFunds));
        }
        withdraw_amounts(
            self.token_x_vault.amount,
            self.token_y_vault.amount,
            self.lp_token.supply,
            lp_amount,
        )
    }

    /// What a withdrawal of `amount` shares pays, without touching a
    /// balance.
    pub fn amounts(&self, amount: u64, min_token_x: u64, min_token_y: u64) -> (r: Result<
        XYAmounts,
        AmmError,
    >)
        ensures
            r == self.spec_amounts(amount, min_token_x, min_token_y),
    {
        if !self.pool_config.is_usable() {
            return Err(AmmError::Config(PoolConfigError::PoolNotInitialized));
        }
        if amount == 0 {
            return Err(AmmError::Config(PoolConfigError::InvalidAmount));
        }
        let paid = match self.calculate_withdraw_amounts(amount) {
            Ok(paid) => paid,
            Err(e) => {
                return Err(e);
            },
        };
        if paid.x < min_token_x || paid.y < min_token_y {
            return Err(AmmError::Dex(AmmDexError::SlippageToleranceExceeded));
        }
        Ok(paid)
    }

    /// Pays `amount` out of the vault of `asset` to the caller.
    pub fn transfer_from_vault(&mut self, asset: LiquidityPair, amount: u64) -> (r: Result<
        (),
        AmmError,
    >)
        ensures
            match old(self).spec_transfer_from_vault(asset, amount) {
                Ok(after) => r is Ok && *final(self) == after,
                Err(e) => r == Err::<(), AmmError>(e) && *final(self) == *old(self),
            },
    {
        let authority: Identity = self.pool_authority;
        match asset {
            LiquidityPair::X => transfer(
                &mut self.token_x_vault,
                &mut self.user_x_token,
                amount,
                &authority,
            ),
            LiquidityPair::Y => transfer(
                &mut self.token_y_vault,
                &mut self.user_y_token,
                amount,
                &authority,
            ),
        }
    }

    /// Burns `lp_amount` of the caller's shares.
    pub fn burn_lp_tokens(&mut self, lp_amount: u64) -> (r: Result<(), AmmError>)
        ensures
            match old(self).spec_burn_lp_tokens(lp_amount) {
                Ok(after) => r is Ok && *final(self) == after,
                Err(e) => r == Err::<(), AmmError>(e) && *final(self) == *old(self),
            },
    {
        let user: Identity = self.user;
        burn(&mut self.lp_token, &mut self.user_lp_token_ac, lp_amount, &user)
    }

    /// Redeems `amount` shares for at least `min_token_x` and `min_token_y`.
    ///
    /// On success the accounts hold the new balances and the result is what
    /// was paid out; on refusal no account has changed. Where no shares are
    /// outstanding, a usable pool refuses every positive `amount` with
    /// `SupplyZero`.
    pub fn handle_withdraw(&mut self, amount: u64, min_token_x: u64, min_token_y: u64) -> (r:
        Result<XYAmounts, AmmError>)
        ensures
            match old(self).spec_handle_withdraw(amount, min_token_x, min_token_y) {
                Ok((after, paid)) => r == Ok::<XYAmounts, AmmError>(paid) && *final(self) == after,
                Err(e) => r == Err::<XYAmounts, AmmError>(e) && *final(self) == *old(self),
            },
            old(self).pool_config.usable() && amount > 0 && old(self).lp_token.supply == 0 ==> r
                == Err::<XYAmounts, AmmError>(AmmError::Dex(AmmDexError::SupplyZero)),
    {
        let paid = match self.amounts(amount, min_token_x, min_token_y) {
            Ok(paid) => paid,
            Err(e) => {
                return Err(e);
            },
        };
        let mut next: Withdraw = *self;
        match next.burn_lp_tokens(amount) {
            Ok(()) => {},
            Err(e) => {
                return Err(e);
            },
        }
        match next.transfer_from_vault(LiquidityPair::X, paid.x) {
            Ok(()) => {},
            Err(e) => {
                return Err(e);
            },
        }
        match next.transfer_from_vault(LiquidityPair::Y, paid.y) {
            Ok(()) => {},
            Err(e) => {
                return Err(e);
            },
        }
        *self = next;
        Ok(paid)
    }
}

} // verus!
