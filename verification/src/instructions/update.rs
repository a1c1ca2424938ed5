//! Locking and unlocking a pool, which only its owner may do.

use vstd::prelude::*;
use crate::error::{AmmDexError, AmmError, PoolConfigError};
use crate::identity::Identity;
use crate::state::PoolConfig;

verus! {

/// The accounts of a change of the lock.
#[derive(Clone, Copy, Debug, PartialEq, Eq)]
pub struct Update {
    /// The caller.
    pub user: Identity,
    pub pool_config: PoolConfig,
}

impl Update {
    /// The accounts after the lock was set to `lock`, or the reason the
    /// change is refused: `PoolNotInitialized` for a pool that is not
    /// usable, `InvalidAuthority` for a caller who is not the owner on
    /// record.
    pub open spec fn spec_handle_update(&self, lock: bool) -> Result<Update, AmmError> {
        if !self.pool_config.usable() {
            Err(AmmError::Config(PoolConfigError::PoolNotInitialized))
        } else if self.pool_config.owner != Some(self.user) {
            Err(AmmError::Dex(AmmDexError::InvalidAuthority))
        } else {
            Ok(Update { pool_config: PoolConfig { is_locked: lock, ..self.pool_config }, ..*self })
        }
    }

    /// Sets the pool's lock to `lock`, which only the pool's owner may do.
    ///
    /// Nothing but the lock changes, and on refusal nothing does.
    pub fn handle_update(&mut self, lock: bool) -> (r: Result<(), AmmError>)
        ensures
            match old(self).spec_handle_update(lock) {
                Ok(after) => r is Ok && *final(self) == after,
                Err(e) => r == Err::<(), AmmError>(e) && *final(self) == *old(self),
            },
    {
        if !self.pool_config.is_usable() {
            return Err(AmmError::Config(PoolConfigError::PoolNotInitialized));
        }
        if !self.pool_config.is_owned_by(&self.user) {
            return Err(AmmError::Dex(AmmDexError::InvalidAuthority));
        }
        self.pool_config.is_locked = lock;
        Ok(())
    }
}

} // verus!
