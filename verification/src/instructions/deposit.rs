//! Adding liquidity: the caller pays both assets into the vaults and is
//! minted shares.

use vstd::prelude::*;
use crate::curve::{deposit_amounts, first_deposit, spec_deposit_amounts, XYAmounts};
use crate::error::{AmmDexError, AmmError, PoolConfigError};
use crate::identity::Identity;
use crate::ledger::{mint_to, spec_mint_to, spec_transfer, transfer, Mint, TokenAccount};
use crate::state::PoolConfig;

verus! {

/// The accounts of a deposit.
#[derive(Clone, Copy, Debug, PartialEq, Eq)]
pub struct Deposit {
    /// The caller, on whose authority the two payments are made.
    pub user: Identity,
    pub user_x_token: TokenAccount,
    pub user_y_token: TokenAccount,
    pub token_x_vault: TokenAccount,
    pub token_y_vault: TokenAccount,
    pub pool_config: PoolConfig,
    /// The pool's own authority, on which shares are minted.
    pub pool_authority: Identity,
    /// The share token.
    pub lp_token: Mint,
    pub user_lp_token_ac: TokenAccount,
}

impl Deposit {
    /// Whether this would be the first deposit: no shares are outstanding
    /// and both vaults are empty.
    pub open spec fn is_first(&self) -> bool {
        self.lp_token.supply == 0 && self.token_x_vault.amount == 0 && self.token_y_vault.amount
            == 0
    }

    /// What a deposit of `amount` shares costs, or the reason it is refused
    /// before any balance is touched.
    ///
    /// The refusals, in the order in which they are tested: the pool is not
    /// usable; it is locked; one of the three amounts is zero; shares are
    /// outstanding while both vaults are empty (`InsufficientFunds`); the
    /// vaults hold funds while no shares are outstanding (`SupplyZero`); a
    /// cost does not fit 64 bits; a cost is above the caller's maximum.
    pub open spec fn spec_amounts(&self, amount: u64, max_token_x: u64, max_token_y: u64) -> Result<
        XYAmounts,
        AmmError,
    > {
        if !self.pool_config.usable() {
            Err(AmmError::Config(PoolConfigError::PoolNotInitialized))
        } else if self.pool_config.is_locked {
            Err(AmmError::Config(PoolConfigError::PoolLocked))
        } else if amount == 0 || max_token_x == 0 || max_token_y == 0 {
            Err(AmmError::Config(PoolConfigError::InvalidAmount))
        } else if self.is_first() {
            Ok(XYAmounts { x: max_token_x, y: max_token_y })
        } else if self.token_x_vault.amount == 0 && self.token_y_vault.amount == 0 {
            Err(AmmError::Dex(AmmDexError::InsufficientFunds))
        } else {
            match spec_deposit_amounts(
                self.token_x_vault.amount,
                self.token_y_vault.amount,
                self.lp_token.supply,
                amount,
            ) {
                Err(e) => Err(e),
                Ok(cost) => if cost.x <= max_token_x && cost.y <= max_token_y {
                    Ok(cost)
                } else {
                    Err(AmmError::Dex(AmmDexError::SlippageToleranceExceeded))
                },
            }
        }
    }

    /// The accounts after a deposit of `amount` shares together with what it
    /// cost, or the reason it is refused.
    ///
    /// Once the cost is known, asset X is paid into its vault, then asset Y
    /// into its vault, both on the caller's authority, and then `amount`
    /// shares are minted to the caller on the pool's authority. The first of
    /// the three that the ledger refuses decides the refusal.
    pub open spec fn spec_handle_deposit(
        &self,
        amount: u64,
        max_token_x: u64,
        max_token_y: u64,
    ) -> Result<(Deposit, XYAmounts), AmmError> {
        match self.spec_amounts(amount, max_token_x, max_token_y) {
            Err(e) => Err(e),
            Ok(cost) => match spec_transfer(
                self.user_x_token,
                self.token_x_vault,
                cost.x,
                self.user,
            ) {
                Err(e) => Err(e),
                Ok((user_x, vault_x)) => match spec_transfer(
                    self.user_y_token,
                    self.token_y_vault,
                    cost.y,
                    self.user,
                ) {
                    Err(e) => Err(e),
                    Ok((user_y, vault_y)) => match spec_mint_to(
                        self.lp_token,
                        self.user_lp_token_ac,
                        amount,
                        self.pool_authority,
                    ) {
                        Err(e) => Err(e),
                        Ok((lp, user_lp)) => Ok(
                            (
                                Deposit {
                                    user_x_token: user_x,
                                    user_y_token: user_y,
                                    token_x_vault: vault_x,
                                    token_y_vault: vault_y,
                                    lp_token: lp,
                                    user_lp_token_ac: user_lp,
                                    ..*self
                                },
                                cost,
                            ),
                        ),
                    },
                },
            },
        }
    }

    /// What a deposit of `amount` shares costs, without touching a balance.
    pub fn amounts(&self, amount: u64, max_token_x: u64, max_token_y: u64) -> (r: Result<
        XYAmounts,
        AmmError,
    >)
        ensures
            r == self.spec_amounts(amount, max_token_x, max_token_y),
    {
        if !self.pool_config.is_usable() {
            return Err(AmmError::Config(PoolConfigError::PoolNotInitialized));
        }
        if self.pool_config.is_locked {
            return Err(AmmError::Config(PoolConfigError::PoolLocked));
        }
        if amount == 0 || max_token_x == 0 || max_token_y == 0 {
            return Err(AmmError::Config(PoolConfigError::InvalidAmount));
        }
        let vaults_empty: bool = self.token_x_vault.amount == 0 && self.token_y_vault.amount == 0;
        if vaults_empty {
            if self.lp_token.supply == 0 {
                return Ok(first_deposit(max_token_x, max_token_y));
            }
            return Err(AmmError::Dex(AmmDexError::InsufficientFunds));
        }
        let cost = match deposit_amounts(
            self.token_x_vault.amount,
            self.token_y_vault.amount,
            self.lp_token.supply,
            amount,
        ) {
            Ok(cost) => cost,
            Err(e) => {
                return Err(e);
            },
        };
        if cost.x <= max_token_x && cost.y <= max_token_y {
            Ok(cost)
        } else {
            Err(AmmError::Dex(AmmDexError::SlippageToleranceExceeded))
        }
    }

    /// Deposits into the pool for `amount` shares, paying at most
    /// `max_token_x` and `max_token_y`.
    ///
    /// The first deposit into an empty pool pays exactly the two maxima,
    /// whatever `amount` is; every later one pays the shares' part of each
    /// reserve, rounded up. On success the accounts hold the new balances and
    /// the result is what was paid; on refusal no account has changed.
    pub fn handle_deposit(&mut self, amount: u64, max_token_x: u64, max_token_y: u64) -> (r: Result<
        XYAmounts,
        AmmError,
    >)
        ensures
            match old(self).spec_handle_deposit(amount, max_token_x, max_token_y) {
                Ok((after, cost)) => r == Ok::<XYAmounts, AmmError>(cost) && *final(self) == after,
                Err(e) => r == Err::<XYAmounts, AmmError>(e) && *final(self) == *old(self),
            },
    {
        let cost = match self.amounts(amount, max_token_x, max_token_y) {
            Ok(cost) => cost,
            Err(e) => {
                return Err(e);
            },
        };
        let mut next: Deposit = *self;
        match transfer(&mut next.user_x_token, &mut next.token_x_vault, cost.x, &self.user) {
            Ok(()) => {},
            Err(e) => {
                return Err(e);
            },
        }
        match transfer(&mut next.user_y_token, &mut next.token_y_vault, cost.y, &self.user) {
            Ok(()) => {},
            Err(e) => {
                return Err(e);
            },
        }
        match mint_to(&mut next.lp_token, &mut next.user_lp_token_ac, amount, &self.pool_authority) {
            Ok(()) => {},
            Err(e) => {
                return Err(e);
            },
        }
        *self = next;
        Ok(cost)
    }
}

} // verus!
