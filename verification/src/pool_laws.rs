//! What holds of the handlers for every pool and every caller.

use vstd::prelude::*;
use crate::curve::{
    amount_in_net, share_of_floor, spec_deposit_amounts, spec_swap_output, spec_withdraw_amounts,
    XYAmounts,
};
use crate::curve_laws::{
    lemma_deposit_keeps_ratio, lemma_share_of_floor_bounds, lemma_deposit_then_withdraw_returns_no_more,
    lemma_first_deposit_then_withdraw_returns_all, lemma_swap_output_bounds,
    lemma_swap_product_accounting,
    lemma_swap_product_equal_only_without_fee,
};
use crate::error::{AmmDexError, AmmError, PoolConfigError};
use crate::identity::Identity;
use crate::instructions::deposit::Deposit;
use crate::instructions::init::{Init, InitBumps};
use crate::instructions::swap::Swap;
use crate::instructions::update::Update;
use crate::instructions::withdraw::Withdraw;
use crate::state::reserves_paired;

verus! {

/// The accounts of a withdrawal by the same caller from the same pool as
/// the accounts of a deposit.
pub open spec fn withdrawal_after(d: Deposit) -> Withdraw {
    Withdraw {
        user: d.user,
        user_x_token: d.user_x_token,
        user_y_token: d.user_y_token,
        token_x_vault: d.token_x_vault,
        token_y_vault: d.token_y_vault,
        pool_config: d.pool_config,
        pool_authority: d.pool_authority,
        lp_token: d.lp_token,
        user_lp_token_ac: d.user_lp_token_ac,
    }
}

/// A pool is created usable exactly when an owner is given, unlocked, with
/// the fee asked for, with empty vaults and no shares outstanding, so that
/// its reserves are paired with its share supply.
pub proof fn lemma_initialize_starts_empty(
    ctx: Init,
    seeds: u64,
    bump: InitBumps,
    fee: u16,
    owner: Option<Identity>,
)
    requires
        fee <= 10000,
    ensures
        ctx.spec_handle_initialize(seeds, bump, fee, owner) is Ok,
        ({
            let after = ctx.spec_handle_initialize(seeds, bump, fee, owner)->Ok_0;
            &&& after.pool_config.well_formed()
            &&& after.pool_config.usable() == (owner is Some)
            &&& after.pool_config.owner == owner
            &&& !after.pool_config.is_locked
            &&& after.pool_config.lp_fee == fee
            &&& after.token_x_vault.amount == 0
            &&& after.token_y_vault.amount == 0
            &&& after.lp_token.supply == 0
            &&& reserves_paired(
                after.token_x_vault.amount,
                after.token_y_vault.amount,
                after.lp_token.supply,
            )
        }),
{
}

/// Only the owner on record changes the lock: for a usable pool the change
/// succeeds exactly when the caller is the owner, it sets the lock to what
/// was asked for and leaves the rest of the configuration as it was; anyone
/// else is refused with `InvalidAuthority`.
pub proof fn lemma_update_sets_the_lock(ctx: Update, lock: bool)
    requires
        ctx.pool_config.usable(),
    ensures
        ctx.spec_handle_update(lock) is Ok <==> ctx.pool_config.owner == Some(ctx.user),
        ctx.spec_handle_update(lock) is Err ==> ctx.spec_handle_update(lock) == Err::<
            Update,
            AmmError,
        >(AmmError::Dex(AmmDexError::InvalidAuthority)),
        ctx.spec_handle_update(lock) is Ok ==> ({
            let after = ctx.spec_handle_update(lock)->Ok_0;
            &&& after.pool_config.is_locked == lock
            &&& after.pool_config.usable()
            &&& after.pool_config.owner == ctx.pool_config.owner
            &&& after.pool_config.lp_fee == ctx.pool_config.lp_fee
            &&& after.pool_config.well_formed() == ctx.pool_config.well_formed()
        }),
{
}

/// A usable pool that is locked refuses every deposit with `PoolLocked`.
pub proof fn lemma_locked_pool_refuses_deposit(
    ctx: Deposit,
    amount: u64,
    max_token_x: u64,
    max_token_y: u64,
)
    requires
        ctx.pool_config.usable(),
        ctx.pool_config.is_locked,
    ensures
        ctx.spec_handle_deposit(amount, max_token_x, max_token_y) == Err::<
            (Deposit, XYAmounts),
            AmmError,
        >(AmmError::Config(PoolConfigError::PoolLocked)),
{
}

/// A pool that is not usable refuses every deposit, withdrawal, swap and
/// change of the lock with `PoolNotInitialized`.
pub proof fn lemma_unusable_pool_refuses_all(
    deposit: Deposit,
    withdraw: Withdraw,
    swap: Swap,
    update: Update,
    lp_pair_x: bool,
    lock: bool,
    amount: u64,
    bound_x: u64,
    bound_y: u64,
)
    requires
        !deposit.pool_config.usable(),
        !withdraw.pool_config.usable(),
        !swap.pool_config.usable(),
        !update.pool_config.usable(),
    ensures
        deposit.spec_handle_deposit(amount, bound_x, bound_y) == Err::<
            (Deposit, XYAmounts),
            AmmError,
        >(AmmError::Config(PoolConfigError::PoolNotInitialized)),
        withdraw.spec_handle_withdraw(amount, bound_x, bound_y) == Err::<
            (Withdraw, XYAmounts),
            AmmError,
        >(AmmError::Config(PoolConfigError::PoolNotInitialized)),
        swap.spec_handle_swap(lp_pair_x, amount, bound_x) is Err,
        swap.spec_handle_swap(lp_pair_x, amount, bound_x)->Err_0 == AmmError::Config(
            PoolConfigError::PoolNotInitialized,
        ),
        update.spec_handle_update(lock) == Err::<Update, AmmError>(
            AmmError::Config(PoolConfigError::PoolNotInitialized),
        ),
{
}

/// A swap that succeeds moves the whole input into one reserve and the
/// payment out of the other, pays at least the caller's minimum and less
/// than the paying reserve held, and leaves the share supply, the
/// configuration and the other accounts' owners as they were.
pub proof fn lemma_swap_moves_reserves(
    ctx: Swap,
    lp_pair_x: bool,
    amount: u64,
    min_swap_amount: u64,
)
    requires
        ctx.spec_handle_swap(lp_pair_x, amount, min_swap_amount) is Ok,
    ensures
        ({
            let (after, moved) = ctx.spec_handle_swap(lp_pair_x, amount, min_swap_amount)->Ok_0;
            let d = Swap::spec_direction(lp_pair_x);
            &&& moved.deposit == amount
            &&& spec_swap_output(ctx.reserve_in(d), ctx.reserve_out(d), ctx.pool_config.lp_fee, amount)
                == Ok::<u64, AmmError>(moved.withdraw)
            &&& min_swap_amount <= moved.withdraw < ctx.reserve_out(d)
            &&& after.reserve_in(d) == ctx.reserve_in(d) + amount
            &&& after.reserve_out(d) == ctx.reserve_out(d) - moved.withdraw
            &&& after.user_x_token.amount + after.token_x_vault.amount == ctx.user_x_token.amount
                + ctx.token_x_vault.amount
            &&& after.user_y_token.amount + after.token_y_vault.amount == ctx.user_y_token.amount
                + ctx.token_y_vault.amount
            &&& after.lp_token == ctx.lp_token
            &&& after.pool_config == ctx.pool_config
        }),
{
    let d = Swap::spec_direction(lp_pair_x);
    lemma_swap_output_bounds(ctx.reserve_in(d), ctx.reserve_out(d), ctx.pool_config.lp_fee, amount);
}

/// Across a swap that succeeds, the product of the reserves falls short of
/// what it was by less than one unit of the paying reserve; and where the
/// division of the pricing is exact it does not fall at all, and stays the
/// same only when the fee is zero.
pub proof fn lemma_swap_keeps_product(
    ctx: Swap,
    lp_pair_x: bool,
    amount: u64,
    min_swap_amount: u64,
)
    requires
        ctx.spec_handle_swap(lp_pair_x, amount, min_swap_amount) is Ok,
    ensures
        ({
            let (after, moved) = ctx.spec_handle_swap(lp_pair_x, amount, min_swap_amount)->Ok_0;
            let d = Swap::spec_direction(lp_pair_x);
            let before = ctx.reserve_in(d) * ctx.reserve_out(d);
            let net = amount_in_net(amount as int, ctx.pool_config.lp_fee as int);
            &&& after.reserve_in(d) * (after.reserve_out(d) + 1) > before
            &&& before % (ctx.reserve_in(d) + net) == 0 ==> {
                &&& after.reserve_in(d) * after.reserve_out(d) >= before
                &&& after.reserve_in(d) * after.reserve_out(d) == before
                    ==> ctx.pool_config.lp_fee == 0
            }
        }),
{
    let d = Swap::spec_direction(lp_pair_x);
    let fee = ctx.pool_config.lp_fee;
    let net = amount_in_net(amount as int, fee as int);
    lemma_swap_moves_reserves(ctx, lp_pair_x, amount, min_swap_amount);
    lemma_swap_product_accounting(ctx.reserve_in(d), ctx.reserve_out(d), fee, amount);
    if (ctx.reserve_in(d) * ctx.reserve_out(d)) % (ctx.reserve_in(d) + net) == 0 {
        lemma_swap_product_equal_only_without_fee(
            ctx.reserve_in(d),
            ctx.reserve_out(d),
            fee,
            amount,
        );
    }
}

/// A deposit that succeeds moves its cost into the vaults and mints the
/// shares asked for: the cost is within the caller's maxima; the first
/// deposit costs exactly the maxima; and the balances of the caller and the
/// vault together are what they were.
pub proof fn lemma_deposit_moves_reserves(
    ctx: Deposit,
    amount: u64,
    max_token_x: u64,
    max_token_y: u64,
)
    requires
        ctx.spec_handle_deposit(amount, max_token_x, max_token_y) is Ok,
    ensures
        ({
            let (after, cost) = ctx.spec_handle_deposit(amount, max_token_x, max_token_y)->Ok_0;
            &&& cost.x <= max_token_x
            &&& cost.y <= max_token_y
            &&& ctx.is_first() ==> cost == (XYAmounts { x: max_token_x, y: max_token_y })
            &&& !ctx.is_first() ==> spec_deposit_amounts(
                ctx.token_x_vault.amount,
                ctx.token_y_vault.amount,
                ctx.lp_token.supply,
                amount,
            ) == Ok::<XYAmounts, AmmError>(cost)
            &&& after.token_x_vault.amount == ctx.token_x_vault.amount + cost.x
            &&& after.token_y_vault.amount == ctx.token_y_vault.amount + cost.y
            &&& after.user_x_token.amount == ctx.user_x_token.amount - cost.x
            &&& after.user_y_token.amount == ctx.user_y_token.amount - cost.y
            &&& after.lp_token.supply == ctx.lp_token.supply + amount
            &&& after.user_lp_token_ac.amount == ctx.user_lp_token_ac.amount + amount
            &&& after.pool_config == ctx.pool_config
        }),
{
}

/// A deposit that is not the first keeps the ratio of the reserves up to
/// the rounding of one unit: the reserves after it, multiplied crosswise
/// with the reserves before it, differ by no more than one reserve.
pub proof fn lemma_deposit_keeps_pool_ratio(
    ctx: Deposit,
    amount: u64,
    max_token_x: u64,
    max_token_y: u64,
)
    requires
        ctx.spec_handle_deposit(amount, max_token_x, max_token_y) is Ok,
        !ctx.is_first(),
    ensures
        ({
            let (after, cost) = ctx.spec_handle_deposit(amount, max_token_x, max_token_y)->Ok_0;
            let cross = after.token_x_vault.amount * ctx.token_y_vault.amount
                - after.token_y_vault.amount * ctx.token_x_vault.amount;
            -ctx.token_x_vault.amount <= cross <= ctx.token_y_vault.amount
        }),
{
    lemma_deposit_moves_reserves(ctx, amount, max_token_x, max_token_y);
    lemma_deposit_keeps_ratio(
        ctx.token_x_vault.amount,
        ctx.token_y_vault.amount,
        ctx.lp_token.supply,
        amount,
    );
}

/// A deposit whose cost is above one of the caller's maxima is refused with
/// `SlippageToleranceExceeded`. (That a refused deposit changes no account
/// is part of what `handle_deposit` promises.)
pub proof fn lemma_deposit_above_maximum_is_refused(
    ctx: Deposit,
    amount: u64,
    max_token_x: u64,
    max_token_y: u64,
)
    requires
        ctx.pool_config.usable(),
        !ctx.pool_config.is_locked,
        amount > 0,
        max_token_x > 0,
        max_token_y > 0,
        ctx.token_x_vault.amount > 0 || ctx.token_y_vault.amount > 0,
        spec_deposit_amounts(
            ctx.token_x_vault.amount,
            ctx.token_y_vault.amount,
            ctx.lp_token.supply,
            amount,
        ) is Ok,
        ({
            let cost = spec_deposit_amounts(
                ctx.token_x_vault.amount,
                ctx.token_y_vault.amount,
                ctx.lp_token.supply,
                amount,
            )->Ok_0;
            cost.x > max_token_x || cost.y > max_token_y
        }),
    ensures
        ctx.spec_handle_deposit(amount, max_token_x, max_token_y) == Err::<
            (Deposit, XYAmounts),
            AmmError,
        >(AmmError::Dex(AmmDexError::SlippageToleranceExceeded)),
{
}

/// A withdrawal from a usable pool with no shares outstanding is refused
/// with `SupplyZero`.
pub proof fn lemma_withdraw_without_supply_is_refused(
    ctx: Withdraw,
    amount: u64,
    min_token_x: u64,
    min_token_y: u64,
)
    requires
        ctx.pool_config.usable(),
        amount > 0,
        ctx.lp_token.supply == 0,
    ensures
        ctx.spec_handle_withdraw(amount, min_token_x, min_token_y) == Err::<
            (Withdraw, XYAmounts),
            AmmError,
        >(AmmError::Dex(AmmDexError::SupplyZero)),
{
}

/// Shares bought and at once redeemed return no more than they cost: after
/// a deposit that succeeds, a withdrawal of the same number of shares from
/// the accounts as the deposit left them is priced, and pays of each asset
/// at most what the deposit took.
pub proof fn lemma_deposit_then_withdraw(
    ctx: Deposit,
    amount: u64,
    max_token_x: u64,
    max_token_y: u64,
)
    requires
        ctx.spec_handle_deposit(amount, max_token_x, max_token_y) is Ok,
    ensures
        ({
            let (after, cost) = ctx.spec_handle_deposit(amount, max_token_x, max_token_y)->Ok_0;
            let back = withdrawal_after(after).spec_amounts(amount, 0, 0);
            &&& back is Ok
            &&& back->Ok_0.x <= cost.x
            &&& back->Ok_0.y <= cost.y
        }),
{
    lemma_deposit_moves_reserves(ctx, amount, max_token_x, max_token_y);
    if ctx.is_first() {
        lemma_first_deposit_then_withdraw_returns_all(max_token_x, max_token_y, amount);
    } else {
        lemma_deposit_then_withdraw_returns_no_more(
            ctx.token_x_vault.amount,
            ctx.token_y_vault.amount,
            ctx.lp_token.supply,
            amount,
        );
    }
}

/// A withdrawal that succeeds burns the shares and moves what it pays out of
/// the vaults to the caller: the payments are at least the caller's minima,
/// and the balances of the caller and the vault together are what they were.
pub proof fn lemma_withdraw_moves_reserves(
    ctx: Withdraw,
    amount: u64,
    min_token_x: u64,
    min_token_y: u64,
)
    requires
        ctx.spec_handle_withdraw(amount, min_token_x, min_token_y) is Ok,
    ensures
        ({
            let (after, paid) = ctx.spec_handle_withdraw(amount, min_token_x, min_token_y)->Ok_0;
            &&& spec_withdraw_amounts(
                ctx.token_x_vault.amount,
                ctx.token_y_vault.amount,
                ctx.lp_token.supply,
                amount,
            ) == Ok::<XYAmounts, AmmError>(paid)
            &&& paid.x >= min_token_x
            &&& paid.y >= min_token_y
            &&& 0 < amount <= ctx.lp_token.supply
            &&& after.token_x_vault.amount == ctx.token_x_vault.amount - paid.x
            &&& after.token_y_vault.amount == ctx.token_y_vault.amount - paid.y
            &&& after.user_x_token.amount == ctx.user_x_token.amount + paid.x
            &&& after.user_y_token.amount == ctx.user_y_token.amount + paid.y
            &&& after.lp_token.supply == ctx.lp_token.supply - amount
            &&& after.user_lp_token_ac.amount == ctx.user_lp_token_ac.amount - amount
            &&& after.pool_config == ctx.pool_config
        }),
{
}

/// A deposit succeeds only on reserves that are paired with the share
/// supply, and leaves them paired.
pub proof fn lemma_deposit_keeps_pairing(
    ctx: Deposit,
    amount: u64,
    max_token_x: u64,
    max_token_y: u64,
)
    requires
        ctx.spec_handle_deposit(amount, max_token_x, max_token_y) is Ok,
    ensures
        ({
            let (after, cost) = ctx.spec_handle_deposit(amount, max_token_x, max_token_y)->Ok_0;
            &&& reserves_paired(
                ctx.token_x_vault.amount,
                ctx.token_y_vault.amount,
                ctx.lp_token.supply,
            )
            &&& reserves_paired(
                after.token_x_vault.amount,
                after.token_y_vault.amount,
                after.lp_token.supply,
            )
        }),
{
    lemma_deposit_moves_reserves(ctx, amount, max_token_x, max_token_y);
}

/// A withdrawal succeeds only on reserves that are paired with the share
/// supply, and leaves them paired: the last shares empty both vaults, and
/// fewer than all leave something in every vault that held something.
pub proof fn lemma_withdraw_keeps_pairing(
    ctx: Withdraw,
    amount: u64,
    min_token_x: u64,
    min_token_y: u64,
)
    requires
        ctx.spec_handle_withdraw(amount, min_token_x, min_token_y) is Ok,
    ensures
        ({
            let (after, paid) = ctx.spec_handle_withdraw(amount, min_token_x, min_token_y)->Ok_0;
            &&& reserves_paired(
                ctx.token_x_vault.amount,
                ctx.token_y_vault.amount,
                ctx.lp_token.supply,
            )
            &&& reserves_paired(
                after.token_x_vault.amount,
                after.token_y_vault.amount,
                after.lp_token.supply,
            )
        }),
{
    lemma_withdraw_moves_reserves(ctx, amount, min_token_x, min_token_y);
    lemma_redeemed_part(ctx.token_x_vault.amount, amount, ctx.lp_token.supply);
    lemma_redeemed_part(ctx.token_y_vault.amount, amount, ctx.lp_token.supply);
}

/// All the shares redeem the whole reserve; fewer than all redeem less than
/// the whole of a reserve that holds something.
proof fn lemma_redeemed_part(reserve: u64, shares: u64, supply: u64)
    requires
        0 < shares <= supply,
    ensures
        shares == supply ==> share_of_floor(reserve as int, shares as int, supply as int)
            == reserve,
        shares < supply && reserve > 0 ==> share_of_floor(
            reserve as int,
            shares as int,
            supply as int,
        ) < reserve,
{
    let r = reserve as int;
    let s = shares as int;
    let sup = supply as int;
    let q = share_of_floor(r, s, sup);
    lemma_share_of_floor_bounds(r, s, sup);
    if shares == supply {
        assert(q == r) by (nonlinear_arith)
            requires
                r * s - sup < sup * q <= r * s,
                s == sup,
                sup > 0,
        ;
    } else if reserve > 0 {
        assert(q < r) by (nonlinear_arith)
            requires
                sup * q <= r * s,
                0 < s < sup,
                r > 0,
                q >= 0,
        ;
    }
}

/// A swap succeeds only on reserves that are paired with the share supply,
/// neither of them empty, and leaves them so.
pub proof fn lemma_swap_keeps_pairing(
    ctx: Swap,
    lp_pair_x: bool,
    amount: u64,
    min_swap_amount: u64,
)
    requires
        ctx.spec_handle_swap(lp_pair_x, amount, min_swap_amount) is Ok,
    ensures
        ({
            let (after, moved) = ctx.spec_handle_swap(lp_pair_x, amount, min_swap_amount)->Ok_0;
            &&& ctx.lp_token.supply > 0
            &&& ctx.token_x_vault.amount > 0
            &&& ctx.token_y_vault.amount > 0
            &&& after.token_x_vault.amount > 0
            &&& after.token_y_vault.amount > 0
            &&& reserves_paired(
                ctx.token_x_vault.amount,
                ctx.token_y_vault.amount,
                ctx.lp_token.supply,
            )
            &&& reserves_paired(
                after.token_x_vault.amount,
                after.token_y_vault.amount,
                after.lp_token.supply,
            )
        }),
{
    lemma_swap_moves_reserves(ctx, lp_pair_x, amount, min_swap_amount);
}

} // verus!
