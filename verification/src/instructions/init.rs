//! Creating a pool: its configuration is written, and its vaults and its
//! share token start empty under the pool's own authority.

use vstd::prelude::*;
use crate::error::{AmmError, PoolConfigError};
use crate::identity::Identity;
use crate::ledger::{Mint, TokenAccount};
use crate::state::{PoolConfig, PROTOCOL_FEE};

verus! {

/// The bump seeds under which the pool's two derived accounts were found.
#[derive(Clone, Copy, Debug, PartialEq, Eq, Structural)]
pub struct InitBumps {
    pub lp_token: u8,
    pub pool_config: u8,
}

/// The accounts of the creation of a pool.
#[derive(Clone, Copy, Debug, PartialEq, Eq)]
pub struct Init {
    /// Who creates the pool.
    pub owner: Identity,
    /// The identity of the share token.
    pub lp_token_key: Identity,
    /// The identity of asset X.
    pub token_x_mint: Identity,
    /// The identity of asset Y.
    pub token_y_mint: Identity,
    /// The pool's own authority.
    pub pool_authority: Identity,
    pub pool_config: PoolConfig,
    /// The share token.
    pub lp_token: Mint,
    pub token_x_vault: TokenAccount,
    pub token_y_vault: TokenAccount,
}

impl Init {
    /// The accounts of a pool just created with the given settings.
    pub open spec fn spec_initialized(
        &self,
        seeds: u64,
        bump: InitBumps,
        fee: u16,
        owner: Option<Identity>,
    ) -> Init {
        Init {
            pool_config: PoolConfig {
                seeds,
                lp_fee: fee,
                protocol_fee: PROTOCOL_FEE,
                lp_bump: bump.lp_token,
                pool_config_bump: bump.pool_config,
                lp_token_mint: self.lp_token_key,
                token_x_mint: self.token_x_mint,
                token_y_mint: self.token_y_mint,
                initialized: true,
                is_locked: false,
                owner,
            },
            lp_token: Mint { authority: self.pool_authority, supply: 0 },
            token_x_vault: TokenAccount { owner: self.pool_authority, amount: 0 },
            token_y_vault: TokenAccount { owner: self.pool_authority, amount: 0 },
            ..*self
        }
    }

    /// The accounts after the creation of the pool, or `InvalidAmount` for a
    /// fee above 10000 basis points.
    pub open spec fn spec_handle_initialize(
        &self,
        seeds: u64,
        bump: InitBumps,
        fee: u16,
        owner: Option<Identity>,
    ) -> Result<Init, AmmError> {
        if fee > 10000 {
            Err(AmmError::Config(PoolConfigError::InvalidAmount))
        } else {
            Ok(self.spec_initialized(seeds, bump, fee, owner))
        }
    }

    /// Creates the pool with a swap fee of `fee` basis points and the given
    /// owner on record.
    ///
    /// A fee above 10000 is refused with `InvalidAmount`, and nothing
    /// changes. Otherwise the pool is created unlocked, with empty vaults
    /// and no shares outstanding. Without an owner it is created but takes
    /// no operation.
    pub fn handle_initialize(
        &mut self,
        seeds: u64,
        bump: &InitBumps,
        fee: u16,
        owner: Option<Identity>,
    ) -> (r: Result<(), AmmError>)
        ensures
            match old(self).spec_handle_initialize(seeds, *bump, fee, owner) {
                Ok(after) => r is Ok && *final(self) == after,
                Err(e) => r == Err::<(), AmmError>(e) && *final(self) == *old(self),
            },
    {
        if fee > 10000 {
            return Err(AmmError::Config(PoolConfigError::InvalidAmount));
        }
        self.pool_config = PoolConfig {
            seeds,
            lp_fee: fee,
            protocol_fee: PROTOCOL_FEE,
            lp_bump: bump.lp_token,
            pool_config_bump: bump.pool_config,
            lp_token_mint: self.lp_token_key,
            token_x_mint: self.token_x_mint,
            token_y_mint: self.token_y_mint,
            initialized: true,
            is_locked: false,
            owner,
        };
        self.lp_token = Mint { authority: self.pool_authority, supply: 0 };
        self.token_x_vault = TokenAccount { owner: self.pool_authority, amount: 0 };
        self.token_y_vault = TokenAccount { owner: self.pool_authority, amount: 0 };
        Ok(())
    }
}

} // verus!
