//! What holds of the curve engine for all reserves, supplies and amounts.

use vstd::prelude::*;
use crate::curve::{
    amount_in_net, lemma_quotient_bounds, lemma_reserve_out_left_bounded, reserve_out_left,
    share_of_ceil, share_of_floor, spec_deposit_amounts, spec_swap_output, spec_withdraw_amounts,
    XYAmounts,
};

verus! {

/// The fee never adds to the input: the net input lies between zero and the
/// input, and is the whole input when the fee is zero.
pub proof fn lemma_amount_in_net_bounds(amount_in: u64, fee_bps: u16)
    requires
        fee_bps <= 10000,
    ensures
        0 <= amount_in_net(amount_in as int, fee_bps as int) <= amount_in,
        fee_bps == 0 ==> amount_in_net(amount_in as int, fee_bps as int) == amount_in,
        fee_bps > 0 && amount_in > 0 ==> amount_in_net(amount_in as int, fee_bps as int)
            < amount_in,
{
    let a = amount_in as int;
    let keep = 10000 - fee_bps as int;
    let n = a * keep;
    assert(0 <= n <= a * 10000) by (nonlinear_arith)
        requires
            n == a * keep,
            0 <= keep <= 10000,
            0 <= a,
    ;
    lemma_quotient_bounds(n, 10000);
    let q = n / 10000;
    assert(10000 * q <= n < 10000 * (q + 1));
    if fee_bps > 0 && amount_in > 0 {
        assert(n < a * 10000) by (nonlinear_arith)
            requires
                n == a * keep,
                0 <= keep < 10000,
                0 < a,
        ;
    }
    if fee_bps == 0 {
        assert(n == a * 10000);
    }
}

/// A swap that succeeds pays less than the paying reserve holds, and leaves
/// in it exactly the floor of the product over the new paying-in reserve.
pub proof fn lemma_swap_output_bounds(
    reserve_in: u64,
    reserve_out: u64,
    fee_bps: u16,
    amount_in: u64,
)
    requires
        spec_swap_output(reserve_in, reserve_out, fee_bps, amount_in) is Ok,
    ensures
        ({
            let out = spec_swap_output(reserve_in, reserve_out, fee_bps, amount_in)->Ok_0;
            let net = amount_in_net(amount_in as int, fee_bps as int);
            &&& 0 <= out < reserve_out
            &&& reserve_out - out == reserve_out_left(reserve_in as int, reserve_out as int, net)
        }),
{
    let net = amount_in_net(amount_in as int, fee_bps as int);
    lemma_amount_in_net_bounds(amount_in, fee_bps);
    lemma_reserve_out_left_bounded(reserve_in as int, reserve_out as int, net);
}

/// The product of the reserves across a swap, to the unit.
///
/// After a swap that succeeds the reserves are `reserve_in + amount_in` and
/// what the swap left of `reserve_out`. Their product is the product before
/// the swap, less the remainder that the division dropped, plus the fee that
/// was kept times the reserve that is left. It follows that the product falls
/// short of the product before by less than one unit of the paying reserve:
/// with one more unit left in that reserve it would exceed it.
pub proof fn lemma_swap_product_accounting(
    reserve_in: u64,
    reserve_out: u64,
    fee_bps: u16,
    amount_in: u64,
)
    requires
        spec_swap_output(reserve_in, reserve_out, fee_bps, amount_in) is Ok,
    ensures
        ({
            let out = spec_swap_output(reserve_in, reserve_out, fee_bps, amount_in)->Ok_0;
            let net = amount_in_net(amount_in as int, fee_bps as int);
            let before = reserve_in * reserve_out;
            let dropped = before % (reserve_in + net);
            let after_in = reserve_in + amount_in;
            let after_out = reserve_out - out;
            &&& 0 <= net <= amount_in
            &&& 0 <= dropped < reserve_in + net
            &&& 0 < after_out <= reserve_out
            &&& after_in * after_out == before - dropped + (amount_in - net) * after_out
            &&& after_in * (after_out + 1) > before
        }),
{
    let net = amount_in_net(amount_in as int, fee_bps as int);
    let before = reserve_in * reserve_out;
    let d = reserve_in + net;
    let left = reserve_out_left(reserve_in as int, reserve_out as int, net);
    lemma_amount_in_net_bounds(amount_in, fee_bps);
    lemma_swap_output_bounds(reserve_in, reserve_out, fee_bps, amount_in);
    assert(before >= 0) by (nonlinear_arith)
        requires
            before == reserve_in * reserve_out,
            reserve_in >= 0,
            reserve_out >= 0,
    ;
    vstd::arithmetic::div_mod::lemma_fundamental_div_mod(before, d);
    let dropped = before % d;
    assert(before == d * left + dropped);
    assert(0 <= dropped < d);
    let after_in = reserve_in + amount_in;
    assert(after_in * left == before - dropped + (amount_in - net) * left) by (nonlinear_arith)
        requires
            before == d * left + dropped,
            d == reserve_in + net,
            after_in == reserve_in + amount_in,
    ;
    assert(after_in * (left + 1) > before) by (nonlinear_arith)
        requires
            before == d * left + dropped,
            dropped < d,
            d == reserve_in + net,
            after_in == reserve_in + amount_in,
            net <= amount_in,
            left >= 0,
    ;
}

/// A swap that succeeds does not lower the product of the reserves, provided
/// that the fee kept, times the reserve left, covers the remainder that the
/// division dropped. That is so, in particular, whenever the division is exact.
pub proof fn lemma_swap_product_does_not_fall(
    reserve_in: u64,
    reserve_out: u64,
    fee_bps: u16,
    amount_in: u64,
)
    requires
        spec_swap_output(reserve_in, reserve_out, fee_bps, amount_in) is Ok,
        ({
            let out = spec_swap_output(reserve_in, reserve_out, fee_bps, amount_in)->Ok_0;
            let net = amount_in_net(amount_in as int, fee_bps as int);
            (amount_in - net) * (reserve_out - out) >= (reserve_in * reserve_out) % (reserve_in
                + net)
        }),
    ensures
        ({
            let out = spec_swap_output(reserve_in, reserve_out, fee_bps, amount_in)->Ok_0;
            (reserve_in + amount_in) * (reserve_out - out) >= reserve_in * reserve_out
        }),
{
    lemma_swap_product_accounting(reserve_in, reserve_out, fee_bps, amount_in);
}

/// Where the division of a swap is exact, the product of the reserves does
/// not fall, and it stays the same only when the fee is zero.
pub proof fn lemma_swap_product_equal_only_without_fee(
    reserve_in: u64,
    reserve_out: u64,
    fee_bps: u16,
    amount_in: u64,
)
    requires
        amount_in > 0,
        spec_swap_output(reserve_in, reserve_out, fee_bps, amount_in) is Ok,
        (reserve_in * reserve_out) % (reserve_in + amount_in_net(
            amount_in as int,
            fee_bps as int,
        )) == 0,
    ensures
        ({
            let out = spec_swap_output(reserve_in, reserve_out, fee_bps, amount_in)->Ok_0;
            let after = (reserve_in + amount_in) * (reserve_out - out);
            &&& after >= reserve_in * reserve_out
            &&& after == reserve_in * reserve_out ==> fee_bps == 0
        }),
{
    let out = spec_swap_output(reserve_in, reserve_out, fee_bps, amount_in)->Ok_0;
    let net = amount_in_net(amount_in as int, fee_bps as int);
    let left = reserve_out - out;
    lemma_swap_product_accounting(reserve_in, reserve_out, fee_bps, amount_in);
    lemma_amount_in_net_bounds(amount_in, fee_bps);
    assert((amount_in - net) * left >= 0) by (nonlinear_arith)
        requires
            amount_in - net >= 0,
            left >= 0,
    ;
    if fee_bps > 0 {
        assert((amount_in - net) * left > 0) by (nonlinear_arith)
            requires
                amount_in - net > 0,
                left > 0,
        ;
    }
}

/// A deposit into a pool with shares outstanding keeps the ratio of the
/// reserves up to the rounding of one unit: the reserves after it, multiplied
/// crosswise with the reserves before it, differ by no more than one reserve.
pub proof fn lemma_deposit_keeps_ratio(
    reserve_x: u64,
    reserve_y: u64,
    share_supply: u64,
    desired_shares: u64,
)
    requires
        spec_deposit_amounts(reserve_x, reserve_y, share_supply, desired_shares) is Ok,
    ensures
        ({
            let d = spec_deposit_amounts(reserve_x, reserve_y, share_supply, desired_shares)->Ok_0;
            let cross = (reserve_x + d.x) * reserve_y - (reserve_y + d.y) * reserve_x;
            -reserve_x <= cross <= reserve_y
        }),
{
    let d = spec_deposit_amounts(reserve_x, reserve_y, share_supply, desired_shares)->Ok_0;
    let rx = reserve_x as int;
    let ry = reserve_y as int;
    let sup = share_supply as int;
    let s = desired_shares as int;
    let x = d.x as int;
    let y = d.y as int;
    lemma_share_of_ceil_bounds(rx, s, sup);
    lemma_share_of_ceil_bounds(ry, s, sup);
    let ex = sup * x - rx * s;
    let ey = sup * y - ry * s;
    let cross = (rx + x) * ry - (ry + y) * rx;
    assert(sup * cross == ex * ry - ey * rx) by (nonlinear_arith)
        requires
            ex == sup * x - rx * s,
            ey == sup * y - ry * s,
            cross == (rx + x) * ry - (ry + y) * rx,
    ;
    assert(cross <= ry) by (nonlinear_arith)
        requires
            sup * cross == ex * ry - ey * rx,
            0 <= ex < sup,
            0 <= ey < sup,
            rx >= 0,
            ry >= 0,
            sup > 0,
    ;
    assert(cross >= -rx) by (nonlinear_arith)
        requires
            sup * cross == ex * ry - ey * rx,
            0 <= ex < sup,
            0 <= ey < sup,
            rx >= 0,
            ry >= 0,
            sup > 0,
    ;
}

/// Rounding up overshoots by less than one: `supply` times the rounded-up
/// part is at least `reserve * shares` and less than that plus `supply`.
pub proof fn lemma_share_of_ceil_bounds(reserve: int, shares: int, supply: int)
    requires
        reserve >= 0,
        shares >= 0,
        supply > 0,
    ensures
        share_of_ceil(reserve, shares, supply) >= 0,
        reserve * shares <= supply * share_of_ceil(reserve, shares, supply) < reserve * shares
            + supply,
{
    let n = reserve * shares + supply - 1;
    assert(reserve * shares >= 0) by (nonlinear_arith)
        requires
            reserve >= 0,
            shares >= 0,
    ;
    lemma_quotient_bounds(n, supply);
    let q = n / supply;
    assert(supply * (q + 1) == supply * q + supply) by (nonlinear_arith);
}

/// Rounding down never overshoots: `supply` times the rounded-down part is
/// at most `reserve * shares` and more than that less `supply`.
pub proof fn lemma_share_of_floor_bounds(reserve: int, shares: int, supply: int)
    requires
        reserve >= 0,
        shares >= 0,
        supply > 0,
    ensures
        share_of_floor(reserve, shares, supply) >= 0,
        reserve * shares - supply < supply * share_of_floor(reserve, shares, supply) <= reserve
            * shares,
{
    let n = reserve * shares;
    assert(n >= 0) by (nonlinear_arith)
        requires
            n == reserve * shares,
            reserve >= 0,
            shares >= 0,
    ;
    lemma_quotient_bounds(n, supply);
    let q = n / supply;
    assert(supply * (q + 1) == supply * q + supply) by (nonlinear_arith);
}

/// Shares bought and at once redeemed return no more than they cost.
///
/// After a deposit of `desired_shares` into a pool with shares outstanding,
/// a withdrawal of the same shares from the pool as the deposit left it
/// succeeds and pays, of each asset, at most what the deposit took.
pub proof fn lemma_deposit_then_withdraw_returns_no_more(
    reserve_x: u64,
    reserve_y: u64,
    share_supply: u64,
    desired_shares: u64,
)
    requires
        spec_deposit_amounts(reserve_x, reserve_y, share_supply, desired_shares) is Ok,
        ({
            let d = spec_deposit_amounts(reserve_x, reserve_y, share_supply, desired_shares)->Ok_0;
            &&& reserve_x + d.x <= u64::MAX
            &&& reserve_y + d.y <= u64::MAX
            &&& share_supply + desired_shares <= u64::MAX
        }),
    ensures
        ({
            let d = spec_deposit_amounts(reserve_x, reserve_y, share_supply, desired_shares)->Ok_0;
            let w = spec_withdraw_amounts(
                (reserve_x + d.x) as u64,
                (reserve_y + d.y) as u64,
                (share_supply + desired_shares) as u64,
                desired_shares,
            );
            &&& w is Ok
            &&& w->Ok_0.x <= d.x
            &&& w->Ok_0.y <= d.y
        }),
{
    let d = spec_deposit_amounts(reserve_x, reserve_y, share_supply, desired_shares)->Ok_0;
    let sup = share_supply as int;
    let s = desired_shares as int;
    lemma_share_of_ceil_bounds(reserve_x as int, s, sup);
    lemma_share_of_ceil_bounds(reserve_y as int, s, sup);
    lemma_redeem_at_most_cost(reserve_x as int, d.x as int, sup, s);
    lemma_redeem_at_most_cost(reserve_y as int, d.y as int, sup, s);
}

/// Where `cost` covers the part of `shares` in `reserve`, the same shares
/// redeemed from `reserve + cost` against `supply + shares` pay at most `cost`.
proof fn lemma_redeem_at_most_cost(reserve: int, cost: int, supply: int, shares: int)
    requires
        reserve >= 0,
        cost >= 0,
        supply > 0,
        shares >= 0,
        reserve * shares <= supply * cost,
    ensures
        0 <= share_of_floor(reserve + cost, shares, supply + shares) <= cost,
{
    lemma_share_of_floor_bounds(reserve + cost, shares, supply + shares);
    let w = share_of_floor(reserve + cost, shares, supply + shares);
    assert(w <= cost) by (nonlinear_arith)
        requires
            (supply + shares) * w <= (reserve + cost) * shares,
            reserve * shares <= supply * cost,
            supply > 0,
            shares >= 0,
            w >= 0,
            cost >= 0,
    ;
}

/// The shares of a first deposit, redeemed at once, return exactly what the
/// deposit put in.
pub proof fn lemma_first_deposit_then_withdraw_returns_all(max_x: u64, max_y: u64, shares: u64)
    requires
        shares > 0,
    ensures
        spec_withdraw_amounts(max_x, max_y, shares, shares) == Ok::<XYAmounts, crate::error::AmmError>(
            XYAmounts { x: max_x, y: max_y },
        ),
{
    assert(share_of_floor(max_x as int, shares as int, shares as int) == max_x) by {
        vstd::arithmetic::div_mod::lemma_div_multiples_vanish(max_x as int, shares as int);
        assert(max_x * shares == shares * max_x) by (nonlinear_arith);
    }
    assert(share_of_floor(max_y as int, shares as int, shares as int) == max_y) by {
        vstd::arithmetic::div_mod::lemma_div_multiples_vanish(max_y as int, shares as int);
        assert(max_y * shares == shares * max_y) by (nonlinear_arith);
    }
}

} // verus!
