//! The curve engine: how much a deposit costs, what a withdrawal pays, and
//! what a swap returns, from the reserves, the share supply and the fee rate.
//!
//! Every product is taken in 128 bits, so none can overflow; a result that
//! does not fit 64 bits is refused with `ArithmeticOverflow`.

use vstd::prelude::*;
use vstd::arithmetic::div_mod::lemma_fundamental_div_mod;
use crate::error::{AmmDexError, AmmError, PoolConfigError};

verus! {

/// The number of basis points in the whole: a fee of 10000 is 100%.
pub const BPS_DENOMINATOR: u16 = 10000;

/// An amount of each of the two assets.
#[derive(Clone, Copy, Debug, PartialEq, Eq, Structural)]
pub struct XYAmounts {
    pub x: u64,
    pub y: u64,
}

/// Which asset the caller pays in.
#[derive(Clone, Copy, Debug, PartialEq, Eq, Structural)]
pub enum LiquidityPair {
    /// Asset X is paid in and asset Y is paid out.
    X,
    /// Asset Y is paid in and asset X is paid out.
    Y,
}

/// What a swap moved: `deposit` into one vault, `withdraw` out of the other.
#[derive(Clone, Copy, Debug, PartialEq, Eq, Structural)]
pub struct SwapResult {
    pub deposit: u64,
    pub withdraw: u64,
}

/// `floor(reserve * shares / supply)`: what `shares` redeem from `reserve`.
pub open spec fn share_of_floor(reserve: int, shares: int, supply: int) -> int
    recommends
        supply > 0,
{
    (reserve * shares) / supply
}

/// `ceil(reserve * shares / supply)`: what `shares` cost in `reserve`.
pub open spec fn share_of_ceil(reserve: int, shares: int, supply: int) -> int
    recommends
        supply > 0,
{
    (reserve * shares + supply - 1) / supply
}

/// The input of a swap after the fee: `floor(amount_in * (10000 - fee_bps) / 10000)`.
pub open spec fn amount_in_net(amount_in: int, fee_bps: int) -> int {
    (amount_in * (10000 - fee_bps)) / 10000
}

/// What is left in the paying reserve after a swap:
/// `floor(reserve_in * reserve_out / (reserve_in + net_in))`.
pub open spec fn reserve_out_left(reserve_in: int, reserve_out: int, net_in: int) -> int
    recommends
        reserve_in + net_in > 0,
{
    (reserve_in * reserve_out) / (reserve_in + net_in)
}

/// The amounts of a withdrawal, or the reason it is refused.
pub open spec fn spec_withdraw_amounts(
    reserve_x: u64,
    reserve_y: u64,
    share_supply: u64,
    shares: u64,
) -> Result<XYAmounts, AmmError> {
    let x = share_of_floor(reserve_x as int, shares as int, share_supply as int);
    let y = share_of_floor(reserve_y as int, shares as int, share_supply as int);
    if share_supply == 0 {
        Err(AmmError::Dex(AmmDexError::SupplyZero))
    } else if x > u64::MAX || y > u64::MAX {
        Err(AmmError::Dex(AmmDexError::ArithmeticOverflow))
    } else {
        Ok(XYAmounts { x: x as u64, y: y as u64 })
    }
}

/// The amounts of a deposit into a pool that has shares outstanding, or the
/// reason it is refused.
pub open spec fn spec_deposit_amounts(
    reserve_x: u64,
    reserve_y: u64,
    share_supply: u64,
    desired_shares: u64,
) -> Result<XYAmounts, AmmError> {
    let x = share_of_ceil(reserve_x as int, desired_shares as int, share_supply as int);
    let y = share_of_ceil(reserve_y as int, desired_shares as int, share_supply as int);
    if share_supply == 0 {
        Err(AmmError::Dex(AmmDexError::SupplyZero))
    } else if x > u64::MAX || y > u64::MAX {
        Err(AmmError::Dex(AmmDexError::ArithmeticOverflow))
    } else {
        Ok(XYAmounts { x: x as u64, y: y as u64 })
    }
}

/// What a swap pays out, or the reason it is refused.
///
/// The fee is taken from the input first. A swap is refused with
/// `InvalidAmount` for a fee above 100%, and with `InvalidSwap` where a
/// reserve is empty or where the payment would empty the paying reserve.
pub open spec fn spec_swap_output(
    reserve_in: u64,
    reserve_out: u64,
    fee_bps: u16,
    amount_in: u64,
) -> Result<u64, AmmError> {
    let net = amount_in_net(amount_in as int, fee_bps as int);
    let left = reserve_out_left(reserve_in as int, reserve_out as int, net);
    if fee_bps > 10000 {
        Err(AmmError::Config(PoolConfigError::InvalidAmount))
    } else if reserve_in == 0 || reserve_out == 0 || left == 0 {
        Err(AmmError::Dex(AmmDexError::InvalidSwap))
    } else {
        Ok((reserve_out - left) as u64)
    }
}

/// `a * b` fits 128 bits with room for one more 64-bit term.
proof fn lemma_wide_product(a: u64, b: u64)
    ensures
        0 <= (a as int) * (b as int) <= 0xFFFF_FFFF_FFFF_FFFE_0000_0000_0000_0001,
{
    assert(0 <= (a as int) * (b as int) <= 0xFFFF_FFFF_FFFF_FFFF * 0xFFFF_FFFF_FFFF_FFFF)
        by (nonlinear_arith)
        requires
            0 <= a as int <= 0xFFFF_FFFF_FFFF_FFFF,
            0 <= b as int <= 0xFFFF_FFFF_FFFF_FFFF,
    ;
}

/// A quotient `floor(n / d)` lies between `0` and `n` for `n >= 0` and `d >= 1`,
/// and `d` times it is at most `n`, which is less than `d` times its successor.
pub proof fn lemma_quotient_bounds(n: int, d: int)
    requires
        0 <= n,
        1 <= d,
    ensures
        0 <= n / d <= n,
        d * (n / d) <= n < d * (n / d + 1),
{
    lemma_fundamental_div_mod(n, d);
    let q = n / d;
    let r = n % d;
    assert(0 <= r < d);
    assert(n == d * q + r);
    assert(d * (q + 1) == d * q + d) by (nonlinear_arith);
    assert(q >= 0) by (nonlinear_arith)
        requires
            d * q + r == n,
            0 <= r < d,
            n >= 0,
            d >= 1,
    ;
    assert(q <= n) by (nonlinear_arith)
        requires
            d * q <= n,
            q >= 0,
            d >= 1,
    ;
}

/// `floor(a * b / c)` in 128 bits.
fn mul_div_floor(a: u64, b: u64, c: u64) -> (q: u128)
    requires
        c > 0,
    ensures
        q == share_of_floor(a as int, b as int, c as int),
{
    proof {
        lemma_wide_product(a, b);
    }
    let product: u128 = (a as u128) * (b as u128);
    product / (c as u128)
}

/// `ceil(a * b / c)` in 128 bits.
fn mul_div_ceil(a: u64, b: u64, c: u64) -> (q: u128)
    requires
        c > 0,
    ensures
        q == share_of_ceil(a as int, b as int, c as int),
{
    proof {
        lemma_wide_product(a, b);
    }
    let product: u128 = (a as u128) * (b as u128);
    let padded: u128 = product + ((c - 1) as u128);
    padded / (c as u128)
}

/// The amounts of the first deposit into an empty pool: exactly the caller's
/// maxima, which set the pool's opening price.
pub fn first_deposit(max_x: u64, max_y: u64) -> (amounts: XYAmounts)
    ensures
        amounts == (XYAmounts { x: max_x, y: max_y }),
{
    XYAmounts { x: max_x, y: max_y }
}

/// The amounts of each asset that `desired_shares` cost in a pool with shares
/// outstanding, each rounded up, so that rounding never dilutes the shares
/// that exist.
pub fn deposit_amounts(
    reserve_x: u64,
    reserve_y: u64,
    share_supply: u64,
    desired_shares: u64,
) -> (r: Result<XYAmounts, AmmError>)
    ensures
        r == spec_deposit_amounts(reserve_x, reserve_y, share_supply, desired_shares),
{
    if share_supply == 0 {
        return Err(AmmError::Dex(AmmDexError::SupplyZero));
    }
    let x: u128 = mul_div_ceil(reserve_x, desired_shares, share_supply);
    let y: u128 = mul_div_ceil(reserve_y, desired_shares, share_supply);
    if x > (u64::MAX as u128) || y > (u64::MAX as u128) {
        return Err(AmmError::Dex(AmmDexError::ArithmeticOverflow));
    }
    Ok(XYAmounts { x: x as u64, y: y as u64 })
}

/// The amounts of each asset that `shares` redeem, each rounded down, so that
/// rounding never pays out more than the shares' part of the reserves.
pub fn withdraw_amounts(
    reserve_x: u64,
    reserve_y: u64,
    share_supply: u64,
    shares: u64,
) -> (r: Result<XYAmounts, AmmError>)
    ensures
        r == spec_withdraw_amounts(reserve_x, reserve_y, share_supply, shares),
{
    if share_supply == 0 {
        return Err(AmmError::Dex(AmmDexError::SupplyZero));
    }
    let x: u128 = mul_div_floor(reserve_x, shares, share_supply);
    let y: u128 = mul_div_floor(reserve_y, shares, share_supply);
    if x > (u64::MAX as u128) || y > (u64::MAX as u128) {
        return Err(AmmError::Dex(AmmDexError::ArithmeticOverflow));
    }
    Ok(XYAmounts { x: x as u64, y: y as u64 })
}

/// What is left in the paying reserve is never more than was in it.
pub proof fn lemma_reserve_out_left_bounded(reserve_in: int, reserve_out: int, net_in: int)
    requires
        reserve_in >= 1,
        reserve_out >= 0,
        net_in >= 0,
    ensures
        0 <= reserve_out_left(reserve_in, reserve_out, net_in) <= reserve_out,
{
    let n = reserve_in * reserve_out;
    let d = reserve_in + net_in;
    assert(n >= 0) by (nonlinear_arith)
        requires
            n == reserve_in * reserve_out,
            reserve_in >= 1,
            reserve_out >= 0,
    ;
    lemma_quotient_bounds(n, d);
    let q = n / d;
    assert(q <= reserve_out) by (nonlinear_arith)
        requires
            d * q <= n,
            n == reserve_in * reserve_out,
            d >= reserve_in,
            reserve_in >= 1,
            q >= 0,
            reserve_out >= 0,
    ;
}

/// What a swap of `amount_in` pays out of `reserve_out`, with the fee of
/// `fee_bps` basis points taken from the input first.
pub fn swap_output(reserve_in: u64, reserve_out: u64, fee_bps: u16, amount_in: u64) -> (r: Result<
    u64,
    AmmError,
>)
    ensures
        r == spec_swap_output(reserve_in, reserve_out, fee_bps, amount_in),
        r is Ok ==> r->Ok_0 < reserve_out,
{
    if fee_bps > BPS_DENOMINATOR {
        return Err(AmmError::Config(PoolConfigError::InvalidAmount));
    }
    if reserve_in == 0 || reserve_out == 0 {
        return Err(AmmError::Dex(AmmDexError::InvalidSwap));
    }
    let kept: u64 = (BPS_DENOMINATOR - fee_bps) as u64;
    let net: u128 = mul_div_floor(amount_in, kept, BPS_DENOMINATOR as u64);
    proof {
        lemma_wide_product(amount_in, kept);
        lemma_wide_product(reserve_in, reserve_out);
        lemma_quotient_bounds((amount_in as int) * (kept as int), 10000);
        lemma_reserve_out_left_bounded(reserve_in as int, reserve_out as int, net as int);
    }
    let product: u128 = (reserve_in as u128) * (reserve_out as u128);
    let divisor: u128 = (reserve_in as u128) + net;
    let left: u128 = product / divisor;
    if left == 0 {
        return Err(AmmError::Dex(AmmDexError::InvalidSwap));
    }
    Ok(reserve_out - (left as u64))
}

} // verus!
