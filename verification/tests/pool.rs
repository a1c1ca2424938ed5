use amm::error::{AmmDexError, AmmError, PoolConfigError};
use amm::identity::Identity;
use amm::instructions::deposit::Deposit;
use amm::instructions::init::{Init, InitBumps};
use amm::instructions::swap::Swap;
use amm::instructions::update::Update;
use amm::instructions::withdraw::Withdraw;
use amm::ledger::{Mint, TokenAccount};
use amm::state::{PoolConfig, PROTOCOL_FEE};
use amm::curve::{LiquidityPair, SwapResult, XYAmounts};

fn owner() -> Identity {
    Identity::new(0, 10)
}

fn user() -> Identity {
    Identity::new(0, 20)
}

fn pool() -> Identity {
    Identity::new(7, 30)
}

fn config(fee: u16) -> PoolConfig {
    let mut ctx = Init {
        owner: owner(),
        lp_token_key: Identity::new(1, 1),
        token_x_mint: Identity::new(1, 2),
        token_y_mint: Identity::new(1, 3),
        pool_authority: pool(),
        pool_config: PoolConfig::blank(),
        lp_token: Mint { authority: owner(), supply: 99 },
        token_x_vault: TokenAccount { owner: owner(), amount: 99 },
        token_y_vault: TokenAccount { owner: owner(), amount: 99 },
    };
    let bumps = InitBumps { lp_token: 254, pool_config: 253 };
    assert_eq!(amm::initialize(&mut ctx, 42, &bumps, fee, Some(owner())), Ok(()));
    ctx.pool_config
}

fn deposit_ctx(vault_x: u64, vault_y: u64, supply: u64) -> Deposit {
    Deposit {
        user: user(),
        user_x_token: TokenAccount { owner: user(), amount: 10_000 },
        user_y_token: TokenAccount { owner: user(), amount: 10_000 },
        token_x_vault: TokenAccount { owner: pool(), amount: vault_x },
        token_y_vault: TokenAccount { owner: pool(), amount: vault_y },
        pool_config: config(30),
        pool_authority: pool(),
        lp_token: Mint { authority: pool(), supply },
        user_lp_token_ac: TokenAccount { owner: user(), amount: 0 },
    }
}

fn withdraw_ctx(vault_x: u64, vault_y: u64, supply: u64, held: u64) -> Withdraw {
    Withdraw {
        user: user(),
        user_x_token: TokenAccount { owner: user(), amount: 0 },
        user_y_token: TokenAccount { owner: user(), amount: 0 },
        token_x_vault: TokenAccount { owner: pool(), amount: vault_x },
        token_y_vault: TokenAccount { owner: pool(), amount: vault_y },
        pool_config: config(30),
        pool_authority: pool(),
        lp_token: Mint { authority: pool(), supply },
        user_lp_token_ac: TokenAccount { owner: user(), amount: held },
    }
}

fn swap_ctx(vault_x: u64, vault_y: u64, fee: u16) -> Swap {
    Swap {
        user: user(),
        user_x_token: TokenAccount { owner: user(), amount: 10_000 },
        user_y_token: TokenAccount { owner: user(), amount: 10_000 },
        token_x_vault: TokenAccount { owner: pool(), amount: vault_x },
        token_y_vault: TokenAccount { owner: pool(), amount: vault_y },
        pool_config: config(fee),
        pool_authority: pool(),
        lp_token: Mint { authority: pool(), supply: 1000 },
    }
}

#[test]
fn initialize_writes_the_configuration() {
    let mut ctx = Init {
        owner: owner(),
        lp_token_key: Identity::new(1, 1),
        token_x_mint: Identity::new(1, 2),
        token_y_mint: Identity::new(1, 3),
        pool_authority: pool(),
        pool_config: PoolConfig::blank(),
        lp_token: Mint { authority: owner(), supply: 99 },
        token_x_vault: TokenAccount { owner: owner(), amount: 99 },
        token_y_vault: TokenAccount { owner: owner(), amount: 99 },
    };
    assert!(!ctx.pool_config.is_usable());
    let bumps = InitBumps { lp_token: 254, pool_config: 253 };
    assert_eq!(ctx.handle_initialize(42, &bumps, 30, Some(owner())), Ok(()));
    assert_eq!(
        ctx.pool_config,
        PoolConfig {
            seeds: 42,
            lp_fee: 30,
            protocol_fee: PROTOCOL_FEE,
            lp_bump: 254,
            pool_config_bump: 253,
            lp_token_mint: Identity::new(1, 1),
            token_x_mint: Identity::new(1, 2),
            token_y_mint: Identity::new(1, 3),
            initialized: true,
            is_locked: false,
            owner: Some(owner()),
        }
    );
    assert!(ctx.pool_config.is_usable());
    assert!(ctx.pool_config.is_owned_by(&owner()));
    assert!(!ctx.pool_config.is_owned_by(&user()));
    assert_eq!(ctx.lp_token, Mint { authority: pool(), supply: 0 });
    assert_eq!(ctx.token_x_vault, TokenAccount { owner: pool(), amount: 0 });
    assert_eq!(ctx.token_y_vault, TokenAccount { owner: pool(), amount: 0 });
}

#[test]
fn initialize_refuses_fee_above_whole() {
    let mut ctx = Init {
        owner: owner(),
        lp_token_key: Identity::new(1, 1),
        token_x_mint: Identity::new(1, 2),
        token_y_mint: Identity::new(1, 3),
        pool_authority: pool(),
        pool_config: PoolConfig::blank(),
        lp_token: Mint { authority: owner(), supply: 99 },
        token_x_vault: TokenAccount { owner: owner(), amount: 99 },
        token_y_vault: TokenAccount { owner: owner(), amount: 99 },
    };
    let before = ctx;
    let bumps = InitBumps { lp_token: 254, pool_config: 253 };
    assert_eq!(
        ctx.handle_initialize(42, &bumps, 10001, Some(owner())),
        Err(AmmError::Config(PoolConfigError::InvalidAmount))
    );
    assert_eq!(ctx, before);
    assert_eq!(ctx.handle_initialize(42, &bumps, 10000, Some(owner())), Ok(()));
    assert_eq!(ctx.pool_config.lp_fee, 10000);
}

#[test]
fn pool_without_owner_takes_no_operation() {
    let mut ctx = Init {
        owner: owner(),
        lp_token_key: Identity::new(1, 1),
        token_x_mint: Identity::new(1, 2),
        token_y_mint: Identity::new(1, 3),
        pool_authority: pool(),
        pool_config: PoolConfig::blank(),
        lp_token: Mint { authority: pool(), supply: 0 },
        token_x_vault: TokenAccount { owner: pool(), amount: 0 },
        token_y_vault: TokenAccount { owner: pool(), amount: 0 },
    };
    let bumps = InitBumps { lp_token: 1, pool_config: 2 };
    assert_eq!(ctx.handle_initialize(42, &bumps, 30, None), Ok(()));
    assert!(ctx.pool_config.initialized);
    assert!(!ctx.pool_config.is_usable());
    let refused = AmmError::Config(PoolConfigError::PoolNotInitialized);

    let mut d = deposit_ctx(0, 0, 0);
    d.pool_config = ctx.pool_config;
    assert_eq!(d.handle_deposit(10, 500, 200), Err(refused));
    let mut w = withdraw_ctx(100, 100, 10, 10);
    w.pool_config = ctx.pool_config;
    assert_eq!(w.handle_withdraw(10, 0, 0), Err(refused));
    let mut s = swap_ctx(1000, 1000, 30);
    s.pool_config = ctx.pool_config;
    assert_eq!(s.handle_swap(true, 100, 1), Err(refused));
    let mut u = Update { user: owner(), pool_config: ctx.pool_config };
    assert_eq!(u.handle_update(true), Err(refused));

    let mut blank = deposit_ctx(0, 0, 0);
    blank.pool_config = PoolConfig::blank();
    assert_eq!(blank.handle_deposit(10, 500, 200), Err(refused));
}

#[test]
fn first_deposit_sets_reserves_to_the_maxima() {
    for desired in [1u64, 7, 1_000_000] {
        let mut ctx = deposit_ctx(0, 0, 0);
        assert_eq!(ctx.handle_deposit(desired, 500, 200), Ok(XYAmounts { x: 500, y: 200 }));
        assert_eq!(ctx.token_x_vault.amount, 500);
        assert_eq!(ctx.token_y_vault.amount, 200);
        assert_eq!(ctx.user_x_token.amount, 9_500);
        assert_eq!(ctx.user_y_token.amount, 9_800);
        assert_eq!(ctx.lp_token.supply, desired);
        assert_eq!(ctx.user_lp_token_ac.amount, desired);
    }
}

#[test]
fn later_deposit_pays_the_shares_part_rounded_up() {
    let mut ctx = deposit_ctx(1000, 10, 3);
    assert_eq!(ctx.amounts(1, 334, 4), Ok(XYAmounts { x: 334, y: 4 }));
    assert_eq!(amm::deposit(&mut ctx, 1, 334, 4), Ok(()));
    assert_eq!(ctx.token_x_vault.amount, 1334);
    assert_eq!(ctx.token_y_vault.amount, 14);
    assert_eq!(ctx.user_x_token.amount, 10_000 - 334);
    assert_eq!(ctx.user_y_token.amount, 10_000 - 4);
    assert_eq!(ctx.lp_token.supply, 4);
    assert_eq!(ctx.user_lp_token_ac.amount, 1);
}

#[test]
fn deposit_above_maximum_is_refused_and_changes_nothing() {
    let mut ctx = deposit_ctx(1000, 10, 3);
    let before = ctx;
    let refused = Err(AmmError::Dex(AmmDexError::SlippageToleranceExceeded));
    assert_eq!(ctx.handle_deposit(1, 333, 4), refused);
    assert_eq!(ctx, before);
    assert_eq!(ctx.handle_deposit(1, 334, 3), refused);
    assert_eq!(ctx, before);
    assert_eq!(ctx.handle_deposit(1, 1, 1), refused);
    assert_eq!(ctx, before);
}

#[test]
fn deposit_refuses_zero_amounts() {
    let refused = Err(AmmError::Config(PoolConfigError::InvalidAmount));
    let mut ctx = deposit_ctx(1000, 10, 3);
    assert_eq!(ctx.handle_deposit(0, 500, 200), refused);
    assert_eq!(ctx.handle_deposit(1, 0, 200), refused);
    assert_eq!(ctx.handle_deposit(1, 500, 0), refused);
}

#[test]
fn deposit_refuses_unpaired_reserves_and_supply() {
    let mut ctx = deposit_ctx(1000, 10, 0);
    assert_eq!(ctx.handle_deposit(1, 5000, 5000), Err(AmmError::Dex(AmmDexError::SupplyZero)));
    let mut ctx = deposit_ctx(0, 0, 3);
    assert_eq!(
        ctx.handle_deposit(1, 5000, 5000),
        Err(AmmError::Dex(AmmDexError::InsufficientFunds))
    );
}

#[test]
fn deposit_refused_by_the_ledger_changes_nothing() {
    let mut ctx = deposit_ctx(1000, 1000, 100);
    ctx.user_y_token.amount = 5;
    let before = ctx;
    // asset X could be paid, asset Y cannot: neither is.
    assert_eq!(
        ctx.handle_deposit(10, 100, 100),
        Err(AmmError::Dex(AmmDexError::InsufficientFunds))
    );
    assert_eq!(ctx, before);

    let mut ctx = deposit_ctx(1000, 1000, 100);
    ctx.user_x_token.owner = owner();
    let before = ctx;
    assert_eq!(
        ctx.handle_deposit(10, 100, 100),
        Err(AmmError::Dex(AmmDexError::InvalidAuthority))
    );
    assert_eq!(ctx, before);

    let mut ctx = deposit_ctx(1000, 1000, u64::MAX - 5);
    let before = ctx;
    assert_eq!(
        ctx.handle_deposit(10, 100, 100),
        Err(AmmError::Dex(AmmDexError::ArithmeticOverflow))
    );
    assert_eq!(ctx, before);

    let mut ctx = deposit_ctx(1000, 1000, 100);
    ctx.lp_token.authority = owner();
    let before = ctx;
    assert_eq!(
        ctx.handle_deposit(10, 100, 100),
        Err(AmmError::Dex(AmmDexError::InvalidAuthority))
    );
    assert_eq!(ctx, before);
}

#[test]
fn withdraw_pays_the_shares_part_rounded_down() {
    let mut ctx = withdraw_ctx(1334, 14, 4, 1);
    assert_eq!(ctx.calculate_withdraw_amounts(1), Ok(XYAmounts { x: 333, y: 3 }));
    assert_eq!(ctx.handle_withdraw(1, 333, 3), Ok(XYAmounts { x: 333, y: 3 }));
    assert_eq!(ctx.token_x_vault.amount, 1001);
    assert_eq!(ctx.token_y_vault.amount, 11);
    assert_eq!(ctx.user_x_token.amount, 333);
    assert_eq!(ctx.user_y_token.amount, 3);
    assert_eq!(ctx.lp_token.supply, 3);
    assert_eq!(ctx.user_lp_token_ac.amount, 0);
}

#[test]
fn withdraw_without_supply_is_refused() {
    let mut ctx = withdraw_ctx(0, 0, 0, 5);
    let before = ctx;
    assert_eq!(ctx.handle_withdraw(5, 0, 0), Err(AmmError::Dex(AmmDexError::SupplyZero)));
    assert_eq!(ctx, before);
    let mut ctx = withdraw_ctx(100, 100, 0, 5);
    assert_eq!(amm::withdraw(&mut ctx, 5, 0, 0), Err(AmmError::Dex(AmmDexError::SupplyZero)));
}

#[test]
fn withdraw_refusals() {
    let mut ctx = withdraw_ctx(1000, 1000, 100, 10);
    let before = ctx;
    assert_eq!(
        ctx.handle_withdraw(0, 0, 0),
        Err(AmmError::Config(PoolConfigError::InvalidAmount))
    );
    assert_eq!(
        ctx.handle_withdraw(10, 101, 0),
        Err(AmmError::Dex(AmmDexError::SlippageToleranceExceeded))
    );
    assert_eq!(
        ctx.handle_withdraw(10, 0, 101),
        Err(AmmError::Dex(AmmDexError::SlippageToleranceExceeded))
    );
    assert_eq!(
        ctx.handle_withdraw(11, 0, 0),
        Err(AmmError::Dex(AmmDexError::InsufficientFunds))
    );
    assert_eq!(ctx.burn_lp_tokens(11), Err(AmmError::Dex(AmmDexError::InsufficientFunds)));
    assert_eq!(
        ctx.transfer_from_vault(LiquidityPair::X, 1001),
        Err(AmmError::Dex(AmmDexError::InsufficientFunds))
    );
    assert_eq!(ctx, before);
    let mut empty = withdraw_ctx(0, 0, 100, 10);
    assert_eq!(
        empty.handle_withdraw(10, 0, 0),
        Err(AmmError::Dex(AmmDexError::InsufficientFunds))
    );
    let mut foreign = withdraw_ctx(1000, 1000, 100, 10);
    foreign.token_y_vault.owner = owner();
    let before = foreign;
    assert_eq!(
        foreign.handle_withdraw(10, 0, 0),
        Err(AmmError::Dex(AmmDexError::InvalidAuthority))
    );
    assert_eq!(foreign, before);
    assert_eq!(ctx.handle_withdraw(10, 100, 100), Ok(XYAmounts { x: 100, y: 100 }));
}

#[test]
fn withdraw_amounts_are_priced_without_touching_a_balance() {
    let ctx = withdraw_ctx(1334, 14, 4, 0);
    assert_eq!(ctx.amounts(1, 333, 3), Ok(XYAmounts { x: 333, y: 3 }));
    assert_eq!(
        ctx.amounts(1, 334, 3),
        Err(AmmError::Dex(AmmDexError::SlippageToleranceExceeded))
    );
    assert_eq!(ctx.amounts(0, 0, 0), Err(AmmError::Config(PoolConfigError::InvalidAmount)));
    // the caller holds no shares: pricing does not ask, redeeming does.
    let mut redeem = ctx;
    assert_eq!(
        redeem.handle_withdraw(1, 333, 3),
        Err(AmmError::Dex(AmmDexError::InsufficientFunds))
    );
    assert_eq!(redeem, ctx);
}

#[test]
fn swap_with_the_whole_input_as_fee_pays_nothing() {
    let mut ctx = swap_ctx(1000, 1000, 10000);
    let before = ctx;
    assert_eq!(
        ctx.handle_swap(true, 100, 1),
        Err(AmmError::Dex(AmmDexError::SlippageToleranceExceeded))
    );
    assert_eq!(ctx, before);
}

#[test]
fn withdraw_steps() {
    let mut ctx = withdraw_ctx(1000, 500, 100, 10);
    assert_eq!(ctx.burn_lp_tokens(4), Ok(()));
    assert_eq!(ctx.lp_token.supply, 96);
    assert_eq!(ctx.user_lp_token_ac.amount, 6);
    assert_eq!(ctx.transfer_from_vault(LiquidityPair::X, 30), Ok(()));
    assert_eq!(ctx.transfer_from_vault(LiquidityPair::Y, 20), Ok(()));
    assert_eq!(ctx.token_x_vault.amount, 970);
    assert_eq!(ctx.user_x_token.amount, 30);
    assert_eq!(ctx.token_y_vault.amount, 480);
    assert_eq!(ctx.user_y_token.amount, 20);
}

#[test]
fn withdraw_is_open_while_locked() {
    let mut ctx = withdraw_ctx(1000, 1000, 100, 10);
    ctx.pool_config.is_locked = true;
    assert_eq!(ctx.handle_withdraw(10, 0, 0), Ok(XYAmounts { x: 100, y: 100 }));
}

#[test]
fn deposit_then_withdraw_returns_no_more() {
    let mut d = deposit_ctx(1000, 10, 3);
    let cost = d.handle_deposit(1, 1000, 1000).unwrap();
    let mut w = Withdraw {
        user: d.user,
        user_x_token: d.user_x_token,
        user_y_token: d.user_y_token,
        token_x_vault: d.token_x_vault,
        token_y_vault: d.token_y_vault,
        pool_config: d.pool_config,
        pool_authority: d.pool_authority,
        lp_token: d.lp_token,
        user_lp_token_ac: d.user_lp_token_ac,
    };
    let back = w.handle_withdraw(1, 0, 0).unwrap();
    assert_eq!(cost, XYAmounts { x: 334, y: 4 });
    assert_eq!(back, XYAmounts { x: 333, y: 3 });
    assert!(w.user_x_token.amount <= 10_000);
    assert!(w.user_y_token.amount <= 10_000);
}

#[test]
fn swap_x_for_y() {
    let mut ctx = swap_ctx(1000, 1000, 30);
    assert_eq!(ctx.handle_swap(true, 100, 91), Ok(SwapResult { deposit: 100, withdraw: 91 }));
    assert_eq!(ctx.token_x_vault.amount, 1100);
    assert_eq!(ctx.token_y_vault.amount, 909);
    assert_eq!(ctx.user_x_token.amount, 9_900);
    assert_eq!(ctx.user_y_token.amount, 10_091);
    assert_eq!(ctx.lp_token.supply, 1000);
}

#[test]
fn swap_y_for_x() {
    let mut ctx = swap_ctx(300, 20000, 100);
    assert_eq!(
        ctx.amounts(LiquidityPair::Y, 5000, 1),
        Ok(SwapResult { deposit: 5000, withdraw: 60 })
    );
    assert_eq!(amm::swap(&mut ctx, false, 5000, 60), Ok(()));
    assert_eq!(ctx.token_x_vault.amount, 240);
    assert_eq!(ctx.token_y_vault.amount, 25000);
    assert_eq!(ctx.user_x_token.amount, 10_060);
    assert_eq!(ctx.user_y_token.amount, 5_000);
}

#[test]
fn swap_vault_steps() {
    let mut ctx = swap_ctx(1000, 1000, 30);
    assert_eq!(ctx.deposit_to_vault(LiquidityPair::Y, 10), Ok(()));
    assert_eq!(ctx.token_y_vault.amount, 1010);
    assert_eq!(ctx.user_y_token.amount, 9_990);
    assert_eq!(ctx.withdraw_from_vault(LiquidityPair::X, 20), Ok(()));
    assert_eq!(ctx.token_x_vault.amount, 980);
    assert_eq!(ctx.user_x_token.amount, 10_020);
    assert_eq!(
        ctx.withdraw_from_vault(LiquidityPair::X, 981),
        Err(AmmError::Dex(AmmDexError::InsufficientFunds))
    );
    assert_eq!(
        ctx.deposit_to_vault(LiquidityPair::X, 10_021),
        Err(AmmError::Dex(AmmDexError::InsufficientFunds))
    );
}

#[test]
fn swap_refusals_change_nothing() {
    let mut ctx = swap_ctx(1000, 1000, 30);
    let before = ctx;
    assert_eq!(
        ctx.handle_swap(true, 0, 1),
        Err(AmmError::Config(PoolConfigError::InvalidAmount))
    );
    assert_eq!(
        ctx.handle_swap(true, 100, 0),
        Err(AmmError::Config(PoolConfigError::InvalidAmount))
    );
    assert_eq!(
        ctx.handle_swap(true, 100, 92),
        Err(AmmError::Dex(AmmDexError::SlippageToleranceExceeded))
    );
    assert_eq!(
        ctx.handle_swap(true, 10_001, 1),
        Err(AmmError::Dex(AmmDexError::InsufficientFunds))
    );
    assert_eq!(ctx, before);

    let mut empty = swap_ctx(0, 0, 30);
    assert_eq!(empty.handle_swap(true, 100, 1), Err(AmmError::Dex(AmmDexError::InvalidSwap)));
    let mut unpaired = swap_ctx(1000, 1000, 30);
    unpaired.lp_token.supply = 0;
    assert_eq!(unpaired.handle_swap(true, 100, 1), Err(AmmError::Dex(AmmDexError::SupplyZero)));

    // the input is paid but the vault is not the pool's: nothing is paid.
    let mut foreign = swap_ctx(1000, 1000, 30);
    foreign.token_y_vault.owner = owner();
    let before = foreign;
    assert_eq!(
        foreign.handle_swap(true, 100, 1),
        Err(AmmError::Dex(AmmDexError::InvalidAuthority))
    );
    assert_eq!(foreign, before);
}

#[test]
fn lock_is_set_by_the_owner_only_and_stops_deposits() {
    let mut ctx = deposit_ctx(1000, 1000, 100);

    let mut stranger = Update { user: user(), pool_config: ctx.pool_config };
    assert_eq!(
        stranger.handle_update(true),
        Err(AmmError::Dex(AmmDexError::InvalidAuthority))
    );
    assert!(!stranger.pool_config.is_locked);
    assert_eq!(stranger.pool_config, ctx.pool_config);

    let mut by_owner = Update { user: owner(), pool_config: ctx.pool_config };
    assert_eq!(by_owner.handle_update(true), Ok(()));
    assert!(by_owner.pool_config.is_locked);

    ctx.pool_config = by_owner.pool_config;
    let before = ctx;
    assert_eq!(
        ctx.handle_deposit(10, 100, 100),
        Err(AmmError::Config(PoolConfigError::PoolLocked))
    );
    assert_eq!(ctx, before);

    assert_eq!(amm::update(&mut by_owner, false), Ok(()));
    ctx.pool_config = by_owner.pool_config;
    assert_eq!(ctx.handle_deposit(10, 100, 100), Ok(XYAmounts { x: 100, y: 100 }));
}
