//! A two-asset constant-product liquidity pool: its configuration record, the
//! curve arithmetic, and the handlers that create a pool, add and remove
//! liquidity, swap one asset for the other and lock the pool.
//!
//! Every handler works on a context of plain account values and is atomic:
//! it either applies all of its balance changes or leaves the context as it
//! found it.

pub mod error;
pub mod identity;
pub mod curve;
pub mod curve_laws;
pub mod ledger;
pub mod state;
pub mod instructions;
pub mod pool_laws;
pub mod simple_token;

use vstd::prelude::*;
use crate::error::AmmError;
use crate::identity::Identity;
use crate::instructions::deposit::Deposit;
use crate::instructions::init::{Init, InitBumps};
use crate::instructions::swap::Swap;
use crate::instructions::update::Update;
use crate::instructions::withdraw::Withdraw;

verus! {

/// Creates a pool with a swap fee of `fee` basis points.
pub fn initialize(
    ctx: &mut Init,
    seeds: u64,
    bumps: &InitBumps,
    fee: u16,
    owner: Option<Identity>,
) -> (r: Result<(), AmmError>)
    ensures
        match old(ctx).spec_handle_initialize(seeds, *bumps, fee, owner) {
            Ok(after) => r is Ok && *final(ctx) == after,
            Err(e) => r == Err::<(), AmmError>(e) && *final(ctx) == *old(ctx),
        },
{
    match ctx.handle_initialize(seeds, bumps, fee, owner) {
        Ok(()) => Ok(()),
        Err(e) => Err(e),
    }
}

/// Deposits into the pool for `amount` shares, paying at most the two maxima.
pub fn deposit(ctx: &mut Deposit, amount: u64, max_token_x: u64, max_token_y: u64) -> (r: Result<
    (),
    AmmError,
>)
    ensures
        match old(ctx).spec_handle_deposit(amount, max_token_x, max_token_y) {
            Ok((after, cost)) => r is Ok && *final(ctx) == after,
            Err(e) => r == Err::<(), AmmError>(e) && *final(ctx) == *old(ctx),
        },
{
    match ctx.handle_deposit(amount, max_token_x, max_token_y) {
        Ok(_) => Ok(()),
        Err(e) => Err(e),
    }
}

/// Redeems `amount` shares for at least the two minima.
pub fn withdraw(ctx: &mut Withdraw, amount: u64, min_token_x: u64, min_token_y: u64) -> (r: Result<
    (),
    AmmError,
>)
    ensures
        match old(ctx).spec_handle_withdraw(amount, min_token_x, min_token_y) {
            Ok((after, paid)) => r is Ok && *final(ctx) == after,
            Err(e) => r == Err::<(), AmmError>(e) && *final(ctx) == *old(ctx),
        },
{
    match ctx.handle_withdraw(amount, min_token_x, min_token_y) {
        Ok(_) => Ok(()),
        Err(e) => Err(e),
    }
}

/// Swaps `amount` of one asset for at least `min_swap_amount` of the other.
pub fn swap(ctx: &mut Swap, lp_pair_x: bool, amount: u64, min_swap_amount: u64) -> (r: Result<
    (),
    AmmError,
>)
    ensures
        match old(ctx).spec_handle_swap(lp_pair_x, amount, min_swap_amount) {
            Ok((after, moved)) => r is Ok && *final(ctx) == after,
            Err(e) => r == Err::<(), AmmError>(e) && *final(ctx) == *old(ctx),
        },
{
    match ctx.handle_swap(lp_pair_x, amount, min_swap_amount) {
        Ok(_) => Ok(()),
        Err(e) => Err(e),
    }
}

/// Sets the pool's lock, which only its owner may do.
pub fn update(ctx: &mut Update, lock: bool) -> (r: Result<(), AmmError>)
    ensures
        match old(ctx).spec_handle_update(lock) {
            Ok(after) => r is Ok && *final(ctx) == after,
            Err(e) => r == Err::<(), AmmError>(e) && *final(ctx) == *old(ctx),
        },
{
    match ctx.handle_update(lock) {
        Ok(()) => Ok(()),
        Err(e) => Err(e),
    }
}

} // verus!
