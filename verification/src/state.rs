//! The configuration record of a pool.

use vstd::prelude::*;
use crate::identity::Identity;

verus! {

/// The protocol's own fee rate, in basis points. It is recorded in every
/// pool's configuration and charged on no transfer.
pub const PROTOCOL_FEE: u64 = 0;

/// Reserves and shares go together: no shares are outstanding exactly when
/// both reserves are empty.
pub open spec fn reserves_paired(reserve_x: u64, reserve_y: u64, share_supply: u64) -> bool {
    (share_supply == 0) == (reserve_x == 0 && reserve_y == 0)
}

/// One pool's configuration. It is written when the pool is created; after
/// that only the lock changes.
#[derive(Clone, Copy, Debug, PartialEq, Eq)]
pub struct PoolConfig {
    pub seeds: u64,
    /// The fee charged on the input of every swap, in basis points.
    pub lp_fee: u16,
    pub protocol_fee: u64,
    pub lp_bump: u8,
    pub pool_config_bump: u8,
    /// The share token.
    pub lp_token_mint: Identity,
    /// Asset X.
    pub token_x_mint: Identity,
    /// Asset Y.
    pub token_y_mint: Identity,
    /// Whether the pool was created.
    pub initialized: bool,
    /// Whether deposits are refused.
    pub is_locked: bool,
    /// Who may lock and unlock the pool.
    pub owner: Option<Identity>,
}

impl PoolConfig {
    /// A pool takes deposits, withdrawals and swaps only once it was
    /// created and has an owner on record.
    pub open spec fn usable(&self) -> bool {
        self.initialized && self.owner is Some
    }

    /// A configuration is well formed when its swap fee is at most the whole
    /// input: 10000 basis points.
    pub open spec fn well_formed(&self) -> bool {
        self.lp_fee <= 10000
    }

    /// Whether the pool is usable.
    pub fn is_usable(&self) -> (r: bool)
        ensures
            r == self.usable(),
    {
        self.initialized && self.owner.is_some()
    }

    /// Whether `who` is the owner on record.
    pub fn is_owned_by(&self, who: &Identity) -> (r: bool)
        ensures
            r == (self.owner == Some(*who)),
    {
        match &self.owner {
            Some(owner) => owner.same(who),
            None => false,
        }
    }

    /// The record of a pool that was not created yet.
    pub open spec fn spec_blank() -> PoolConfig {
        PoolConfig {
            seeds: 0,
            lp_fee: 0,
            protocol_fee: 0,
            lp_bump: 0,
            pool_config_bump: 0,
            lp_token_mint: Identity { hi: 0, lo: 0 },
            token_x_mint: Identity { hi: 0, lo: 0 },
            token_y_mint: Identity { hi: 0, lo: 0 },
            initialized: false,
            is_locked: false,
            owner: None,
        }
    }

    /// The record of a pool that was not created yet: it is not usable.
    pub fn blank() -> (config: PoolConfig)
        ensures
            config == Self::spec_blank(),
            !config.usable(),
    {
        let nobody = Identity::new(0, 0);
        PoolConfig {
            seeds: 0,
            lp_fee: 0,
            protocol_fee: 0,
            lp_bump: 0,
            pool_config_bump: 0,
            lp_token_mint: nobody,
            token_x_mint: nobody,
            token_y_mint: nobody,
            initialized: false,
            is_locked: false,
            owner: None,
        }
    }
}

} // verus!
