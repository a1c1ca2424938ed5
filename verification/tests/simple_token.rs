use amm::identity::Identity;
use amm::simple_token::{
    create_ata, delegation, freeze, initialize, mint, revoke_delegation, thaw, transfer, CreateAta,
    Delegate, DelegateError, Freeze, InitializeMint, Mint, MintError, MintTokens,
    RevokeDelegation, Thaw, TokenError, Transfer, ATA,
};

fn minter() -> Identity {
    Identity::new(0, 1)
}

fn holder() -> Identity {
    Identity::new(0, 2)
}

fn agent() -> Identity {
    Identity::new(0, 3)
}

fn token_key() -> Identity {
    Identity::new(9, 9)
}

fn token(supply: u64) -> Mint {
    Mint {
        decimals: 6,
        mint_authority: minter(),
        freeze_authority: minter(),
        supply,
        is_initialized: true,
        is_frozen: false,
    }
}

fn account(owner: Identity, amount: u64) -> ATA {
    ATA { owner, mint: token_key(), amount, is_initialized: true, delegate: None, delegate_amount: 0 }
}

#[test]
fn token_initialize_sets_the_authorities() {
    let blank = Mint {
        decimals: 0,
        mint_authority: holder(),
        freeze_authority: holder(),
        supply: 5,
        is_initialized: false,
        is_frozen: true,
    };
    let mut ctx = InitializeMint { mint_account: blank, payer: holder(), owner: minter() };
    assert_eq!(initialize(&mut ctx, 6, 1000), Ok(()));
    assert_eq!(ctx.mint_account, token(1000));
    assert_eq!(ctx.payer, holder());
}

#[test]
fn create_ata_makes_an_empty_account_of_the_payer() {
    let stale = ATA {
        owner: minter(),
        mint: minter(),
        amount: 77,
        is_initialized: false,
        delegate: Some(agent()),
        delegate_amount: 5,
    };
    let mut ctx = CreateAta { ata_account: stale, payer: holder(), mint: token_key() };
    assert_eq!(create_ata(&mut ctx), Ok(()));
    assert_eq!(ctx.ata_account, account(holder(), 0));
}

#[test]
fn token_mint_grows_supply_and_balance() {
    let mut ctx =
        MintTokens { mint_account: token(1000), ata_account: account(holder(), 5), owner: minter() };
    assert_eq!(mint(&mut ctx, 20), Ok(()));
    assert_eq!(ctx.mint_account, token(1020));
    assert_eq!(ctx.ata_account, account(holder(), 25));
}

#[test]
fn token_mint_refusals_change_nothing() {
    let good =
        MintTokens { mint_account: token(1000), ata_account: account(holder(), 5), owner: minter() };

    let mut ctx = good;
    ctx.mint_account.is_initialized = false;
    let before = ctx;
    assert_eq!(mint(&mut ctx, 20), Err(TokenError::Mint(MintError::MintNotInitialized)));
    assert_eq!(ctx, before);

    let mut ctx = good;
    ctx.owner = holder();
    assert_eq!(mint(&mut ctx, 20), Err(TokenError::Mint(MintError::UnauthorizedMint)));

    let mut ctx = good;
    ctx.mint_account.is_frozen = true;
    assert_eq!(mint(&mut ctx, 20), Err(TokenError::Mint(MintError::MintFrozen)));

    let mut ctx = good;
    assert_eq!(mint(&mut ctx, 0), Err(TokenError::Mint(MintError::InvalidAmount)));

    let mut ctx = good;
    ctx.mint_account.supply = u64::MAX - 19;
    let before = ctx;
    assert_eq!(mint(&mut ctx, 20), Err(TokenError::Mint(MintError::SupplyOverflow)));
    assert_eq!(ctx, before);

    let mut ctx = good;
    ctx.ata_account.amount = u64::MAX - 19;
    let before = ctx;
    assert_eq!(mint(&mut ctx, 20), Err(TokenError::Mint(MintError::AmountOverflow)));
    assert_eq!(ctx, before);
    assert_eq!(mint(&mut ctx, 19), Ok(()));
    assert_eq!(ctx.ata_account.amount, u64::MAX);
    assert_eq!(ctx.mint_account.supply, 1019);
}

#[test]
fn delegation_sets_the_allowance() {
    let mut ctx = Delegate { delegate: agent(), ata_account: account(holder(), 50), owner: holder() };
    assert_eq!(delegation(&mut ctx, 50), Ok(()));
    assert_eq!(ctx.ata_account.delegate, Some(agent()));
    assert_eq!(ctx.ata_account.delegate_amount, 50);
    assert_eq!(ctx.ata_account.amount, 50);
    assert_eq!(
        delegation(&mut ctx, 10),
        Err(TokenError::Delegate(DelegateError::DelegateAlreadySet))
    );
}

#[test]
fn delegation_refusals() {
    let good = Delegate { delegate: agent(), ata_account: account(holder(), 50), owner: holder() };
    let mut ctx = good;
    assert_eq!(delegation(&mut ctx, 0), Err(TokenError::Delegate(DelegateError::InvalidAmount)));
    assert_eq!(delegation(&mut ctx, 51), Err(TokenError::Delegate(DelegateError::InvalidAmount)));
    assert_eq!(ctx, good);
    let mut ctx = good;
    ctx.owner = minter();
    assert_eq!(
        delegation(&mut ctx, 10),
        Err(TokenError::Delegate(DelegateError::UnauthorizedOwner))
    );
}

#[test]
fn revoke_clears_the_delegate() {
    let mut held = account(holder(), 50);
    held.delegate = Some(agent());
    held.delegate_amount = 30;
    let mut ctx = RevokeDelegation { ata_account: held, owner: minter() };
    assert_eq!(
        revoke_delegation(&mut ctx),
        Err(TokenError::Delegate(DelegateError::UnauthorizedOwner))
    );
    assert_eq!(ctx.ata_account, held);
    ctx.owner = holder();
    assert_eq!(revoke_delegation(&mut ctx), Ok(()));
    assert_eq!(ctx.ata_account, account(holder(), 50));
}

#[test]
fn transfer_by_the_owner() {
    let mut ctx =
        Transfer { from: account(holder(), 50), to: account(minter(), 1), signer: holder() };
    assert_eq!(transfer(&mut ctx, 20), Ok(()));
    assert_eq!(ctx.from, account(holder(), 30));
    assert_eq!(ctx.to, account(minter(), 21));
}

#[test]
fn transfer_by_the_delegate_uses_the_allowance() {
    let mut from = account(holder(), 50);
    from.delegate = Some(agent());
    from.delegate_amount = 25;
    let mut ctx = Transfer { from, to: account(minter(), 1), signer: agent() };
    assert_eq!(transfer(&mut ctx, 20), Ok(()));
    assert_eq!(ctx.from.amount, 30);
    assert_eq!(ctx.from.delegate_amount, 5);
    assert_eq!(ctx.from.delegate, Some(agent()));
    assert_eq!(ctx.to.amount, 21);
    let before = ctx;
    assert_eq!(transfer(&mut ctx, 6), Err(TokenError::Delegate(DelegateError::InvalidAmount)));
    assert_eq!(ctx, before);

    // the owner's own transfers leave the allowance alone.
    ctx.signer = holder();
    assert_eq!(transfer(&mut ctx, 6), Ok(()));
    assert_eq!(ctx.from.delegate_amount, 5);
    assert_eq!(ctx.from.amount, 24);
}

#[test]
fn token_transfer_refusals_change_nothing() {
    let good = Transfer { from: account(holder(), 50), to: account(minter(), 1), signer: holder() };

    let mut ctx = good;
    ctx.from.is_initialized = false;
    assert_eq!(transfer(&mut ctx, 20), Err(TokenError::Delegate(DelegateError::ATANotInitialized)));

    let mut ctx = good;
    assert_eq!(transfer(&mut ctx, 0), Err(TokenError::Delegate(DelegateError::InvalidAmount)));
    assert_eq!(transfer(&mut ctx, 51), Err(TokenError::Delegate(DelegateError::AmountOverflow)));
    assert_eq!(ctx, good);

    let mut ctx = good;
    ctx.signer = agent();
    assert_eq!(transfer(&mut ctx, 20), Err(TokenError::Delegate(DelegateError::UnauthorizedOwner)));
    ctx.from.delegate = Some(minter());
    ctx.from.delegate_amount = 50;
    assert_eq!(transfer(&mut ctx, 20), Err(TokenError::Delegate(DelegateError::UnauthorizedOwner)));

    let mut ctx = good;
    ctx.to.amount = u64::MAX - 19;
    let before = ctx;
    assert_eq!(transfer(&mut ctx, 20), Err(TokenError::Delegate(DelegateError::AmountOverflow)));
    assert_eq!(ctx, before);
}

#[test]
fn freeze_and_thaw() {
    let mut f = Freeze { mint_account: token(10), owner: minter() };
    assert_eq!(freeze(&mut f), Ok(()));
    assert!(f.mint_account.is_frozen);
    assert_eq!(freeze(&mut f), Err(TokenError::Mint(MintError::MintFrozen)));
    assert!(f.mint_account.is_frozen);

    let mut t = Thaw { mint_account: f.mint_account, owner: minter() };
    assert_eq!(thaw(&mut t), Ok(()));
    assert_eq!(t.mint_account, token(10));
    assert_eq!(thaw(&mut t), Err(TokenError::Mint(MintError::MintNotFrozen)));
    assert_eq!(t.mint_account, token(10));
}
