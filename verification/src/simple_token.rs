//! A small token ledger: tokens that are minted into holders' accounts,
//! moved between them by their owner or by a delegate with an allowance,
//! and frozen and thawed as a whole.
//!
//! Every operation either applies in full or leaves its accounts as it
//! found them.

use vstd::prelude::*;
use crate::identity::Identity;

verus! {

/// Refusals that concern a token as a whole.
#[derive(Clone, Copy, Debug, PartialEq, Eq, Structural)]
pub enum MintError {
    /// The token was never initialized.
    MintNotInitialized,
    /// The caller is not the token's minting authority.
    UnauthorizedMint,
    /// The token is frozen.
    MintFrozen,
    /// The supply would not fit 64 bits.
    SupplyOverflow,
    /// The receiving balance would not fit 64 bits.
    AmountOverflow,
    /// The amount is zero.
    InvalidAmount,
    /// The token is not frozen.
    MintNotFrozen,
}

/// Refusals that concern a holder's account.
#[derive(Clone, Copy, Debug, PartialEq, Eq, Structural)]
pub enum DelegateError {
    /// The account was never initialized.
    ATANotInitialized,
    /// The caller is neither the account's owner nor its delegate.
    UnauthorizedOwner,
    /// The account has a delegate already.
    DelegateAlreadySet,
    /// The balance is too small, or the receiving one would not fit 64 bits.
    AmountOverflow,
    /// The amount is zero, or above what the balance or the allowance covers.
    InvalidAmount,
}

/// Any refusal of the ledger.
#[derive(Clone, Copy, Debug, PartialEq, Eq, Structural)]
pub enum TokenError {
    Mint(MintError),
    Delegate(DelegateError),
}

/// A token.
#[derive(Clone, Copy, Debug, PartialEq, Eq)]
pub struct Mint {
    pub decimals: u8,
    pub mint_authority: Identity,
    pub freeze_authority: Identity,
    pub supply: u64,
    pub is_initialized: bool,
    pub is_frozen: bool,
}

/// A holder's account of one token.
#[derive(Clone, Copy, Debug, PartialEq, Eq)]
pub struct ATA {
    pub owner: Identity,
    pub mint: Identity,
    pub amount: u64,
    pub is_initialized: bool,
    /// Who else may move funds out of the account.
    pub delegate: Option<Identity>,
    /// How much the delegate may still move.
    pub delegate_amount: u64,
}

/// The accounts of the creation of a token.
#[derive(Clone, Copy, Debug, PartialEq, Eq)]
pub struct InitializeMint {
    pub mint_account: Mint,
    pub payer: Identity,
    /// Who is to mint and to freeze the token.
    pub owner: Identity,
}

/// The accounts of the creation of a holder's account.
#[derive(Clone, Copy, Debug, PartialEq, Eq)]
pub struct CreateAta {
    pub ata_account: ATA,
    /// Who pays for the account and owns it.
    pub payer: Identity,
    /// The identity of the token.
    pub mint: Identity,
}

/// The accounts of a mint.
#[derive(Clone, Copy, Debug, PartialEq, Eq)]
pub struct MintTokens {
    pub mint_account: Mint,
    pub ata_account: ATA,
    /// The caller.
    pub owner: Identity,
}

/// The accounts of the naming of a delegate.
#[derive(Clone, Copy, Debug, PartialEq, Eq)]
pub struct Delegate {
    pub delegate: Identity,
    pub ata_account: ATA,
    /// The caller.
    pub owner: Identity,
}

/// The accounts of the dismissal of a delegate.
#[derive(Clone, Copy, Debug, PartialEq, Eq)]
pub struct RevokeDelegation {
    pub ata_account: ATA,
    /// The caller.
    pub owner: Identity,
}

/// The accounts of a transfer.
#[derive(Clone, Copy, Debug, PartialEq, Eq)]
pub struct Transfer {
    pub from: ATA,
    pub to: ATA,
    /// The caller: the owner of `from`, or its delegate.
    pub signer: Identity,
}

/// The accounts of a freeze.
#[derive(Clone, Copy, Debug, PartialEq, Eq)]
pub struct Freeze {
    pub mint_account: Mint,
    pub owner: Identity,
}

/// The accounts of a thaw.
#[derive(Clone, Copy, Debug, PartialEq, Eq)]
pub struct Thaw {
    pub mint_account: Mint,
    pub owner: Identity,
}

/// The accounts after the creation of a token.
pub open spec fn spec_initialize(ctx: InitializeMint, decimals: u8, supply: u64) -> InitializeMint {
    InitializeMint {
        mint_account: Mint {
            decimals,
            mint_authority: ctx.owner,
            freeze_authority: ctx.owner,
            supply,
            is_initialized: true,
            is_frozen: false,
        },
        ..ctx
    }
}

/// The accounts after the creation of a holder's account.
pub open spec fn spec_create_ata(ctx: CreateAta) -> CreateAta {
    CreateAta {
        ata_account: ATA {
            owner: ctx.payer,
            mint: ctx.mint,
            amount: 0,
            is_initialized: true,
            delegate: None,
            delegate_amount: 0,
        },
        ..ctx
    }
}

/// The accounts after a mint of `amount`, or the reason it is refused. The
/// refusals, in the order in which they are tested: the token is not
/// initialized; the caller is not its minting authority; it is frozen; the
/// amount is zero; the supply overflows; the receiving balance overflows.
pub open spec fn spec_mint(ctx: MintTokens, amount: u64) -> Result<MintTokens, TokenError> {
    if !ctx.mint_account.is_initialized {
        Err(TokenError::Mint(MintError::MintNotInitialized))
    } else if ctx.mint_account.mint_authority != ctx.owner {
        Err(TokenError::Mint(MintError::UnauthorizedMint))
    } else if ctx.mint_account.is_frozen {
        Err(TokenError::Mint(MintError::MintFrozen))
    } else if amount == 0 {
        Err(TokenError::Mint(MintError::InvalidAmount))
    } else if ctx.mint_account.supply + amount > u64::MAX {
        Err(TokenError::Mint(MintError::SupplyOverflow))
    } else if ctx.ata_account.amount + amount > u64::MAX {
        Err(TokenError::Mint(MintError::AmountOverflow))
    } else {
        Ok(
            MintTokens {
                mint_account: Mint {
                    supply: (ctx.mint_account.supply + amount) as u64,
                    ..ctx.mint_account
                },
                ata_account: ATA {
                    amount: (ctx.ata_account.amount + amount) as u64,
                    ..ctx.ata_account
                },
                ..ctx
            },
        )
    }
}

/// The accounts after a delegate was named with an allowance of `amount`,
/// or the reason it is refused. The refusals, in the order in which they
/// are tested: the caller does not own the account; it has a delegate
/// already; the amount is zero or above the balance.
pub open spec fn spec_delegation(ctx: Delegate, amount: u64) -> Result<Delegate, TokenError> {
    if ctx.ata_account.owner != ctx.owner {
        Err(TokenError::Delegate(DelegateError::UnauthorizedOwner))
    } else if ctx.ata_account.delegate is Some {
        Err(TokenError::Delegate(DelegateError::DelegateAlreadySet))
    } else if amount == 0 || amount > ctx.ata_account.amount {
        Err(TokenError::Delegate(DelegateError::InvalidAmount))
    } else {
        Ok(
            Delegate {
                ata_account: ATA {
                    delegate: Some(ctx.delegate),
                    delegate_amount: amount,
                    ..ctx.ata_account
                },
                ..ctx
            },
        )
    }
}

/// The accounts after the delegate was dismissed, or `UnauthorizedOwner`
/// where the caller does not own the account.
pub open spec fn spec_revoke_delegation(ctx: RevokeDelegation) -> Result<
    RevokeDelegation,
    TokenError,
> {
    if ctx.ata_account.owner != ctx.owner {
        Err(TokenError::Delegate(DelegateError::UnauthorizedOwner))
    } else {
        Ok(
            RevokeDelegation {
                ata_account: ATA { delegate: None, delegate_amount: 0, ..ctx.ata_account },
                ..ctx
            },
        )
    }
}

/// The accounts after a transfer of `amount`, or the reason it is refused.
/// The refusals, in the order in which they are tested: the paying account
/// is not initialized; the amount is zero; the balance is below the amount;
/// the caller is not the owner and either is not the delegate
/// (`UnauthorizedOwner`) or has too small an allowance (`InvalidAmount`);
/// the receiving balance overflows. A delegate's allowance shrinks by what
/// was moved.
pub open spec fn spec_transfer(ctx: Transfer, amount: u64) -> Result<Transfer, TokenError> {
    let by_owner = ctx.signer == ctx.from.owner;
    if !ctx.from.is_initialized {
        Err(TokenError::Delegate(DelegateError::ATANotInitialized))
    } else if amount == 0 {
        Err(TokenError::Delegate(DelegateError::InvalidAmount))
    } else if ctx.from.amount < amount {
        Err(TokenError::Delegate(DelegateError::AmountOverflow))
    } else if !by_owner && ctx.from.delegate != Some(ctx.signer) {
        Err(TokenError::Delegate(DelegateError::UnauthorizedOwner))
    } else if !by_owner && ctx.from.delegate_amount < amount {
        Err(TokenError::Delegate(DelegateError::InvalidAmount))
    } else if ctx.to.amount + amount > u64::MAX {
        Err(TokenError::Delegate(DelegateError::AmountOverflow))
    } else {
        Ok(
            Transfer {
                from: ATA {
                    amount: (ctx.from.amount - amount) as u64,
                    delegate_amount: if by_owner {
                        ctx.from.delegate_amount
                    } else {
                        (ctx.from.delegate_amount - amount) as u64
                    },
                    ..ctx.from
                },
                to: ATA { amount: (ctx.to.amount + amount) as u64, ..ctx.to },
                ..ctx
            },
        )
    }
}

/// The accounts after a freeze, or `MintFrozen` for a token that is frozen.
pub open spec fn spec_freeze(ctx: Freeze) -> Result<Freeze, TokenError> {
    if ctx.mint_account.is_frozen {
        Err(TokenError::Mint(MintError::MintFrozen))
    } else {
        Ok(Freeze { mint_account: Mint { is_frozen: true, ..ctx.mint_account }, ..ctx })
    }
}

/// The accounts after a thaw, or `MintNotFrozen` for a token that is not
/// frozen.
pub open spec fn spec_thaw(ctx: Thaw) -> Result<Thaw, TokenError> {
    if !ctx.mint_account.is_frozen {
        Err(TokenError::Mint(MintError::MintNotFrozen))
    } else {
        Ok(Thaw { mint_account: Mint { is_frozen: false, ..ctx.mint_account }, ..ctx })
    }
}

/// Creates a token with the given decimals and supply; the owner named in
/// the accounts becomes its minting and its freezing authority.
pub fn initialize(ctx: &mut InitializeMint, decimals: u8, supply: u64) -> (r: Result<
    (),
    TokenError,
>)
    ensures
        r is Ok,
        *final(ctx) == spec_initialize(*old(ctx), decimals, supply),
{
    ctx.mint_account.decimals = decimals;
    ctx.mint_account.mint_authority = ctx.owner;
    ctx.mint_account.freeze_authority = ctx.owner;
    ctx.mint_account.supply = supply;
    ctx.mint_account.is_initialized = true;
    ctx.mint_account.is_frozen = false;
    Ok(())
}

/// Creates an empty account of the token for the payer.
pub fn create_ata(ctx: &mut CreateAta) -> (r: Result<(), TokenError>)
    ensures
        r is Ok,
        *final(ctx) == spec_create_ata(*old(ctx)),
{
    ctx.ata_account.owner = ctx.payer;
    ctx.ata_account.mint = ctx.mint;
    ctx.ata_account.amount = 0;
    ctx.ata_account.is_initialized = true;
    ctx.ata_account.delegate = None;
    ctx.ata_account.delegate_amount = 0;
    Ok(())
}

/// Mints `amount` of the token into the account.
pub fn mint(ctx: &mut MintTokens, amount: u64) -> (r: Result<(), TokenError>)
    ensures
        match spec_mint(*old(ctx), amount) {
            Ok(after) => r is Ok && *final(ctx) == after,
            Err(e) => r == Err::<(), TokenError>(e) && *final(ctx) == *old(ctx),
        },
{
    if !ctx.mint_account.is_initialized {
        return Err(TokenError::Mint(MintError::MintNotInitialized));
    }
    if !ctx.mint_account.mint_authority.same(&ctx.owner) {
        return Err(TokenError::Mint(MintError::UnauthorizedMint));
    }
    if ctx.mint_account.is_frozen {
        return Err(TokenError::Mint(MintError::MintFrozen));
    }
    if amount == 0 {
        return Err(TokenError::Mint(MintError::InvalidAmount));
    }
    let supply: u64 = match ctx.mint_account.supply.checked_add(amount) {
        Some(supply) => supply,
        None => {
            return Err(TokenError::Mint(MintError::SupplyOverflow));
        },
    };
    let balance: u64 = match ctx.ata_account.amount.checked_add(amount) {
        Some(balance) => balance,
        None => {
            return Err(TokenError::Mint(MintError::AmountOverflow));
        },
    };
    ctx.mint_account.supply = supply;
    ctx.ata_account.amount = balance;
    Ok(())
}

/// Names a delegate who may move up to `amount` out of the account.
pub fn delegation(ctx: &mut Delegate, amount: u64) -> (r: Result<(), TokenError>)
    ensures
        match spec_delegation(*old(ctx), amount) {
            Ok(after) => r is Ok && *final(ctx) == after,
            Err(e) => r == Err::<(), TokenError>(e) && *final(ctx) == *old(ctx),
        },
{
    if !ctx.ata_account.owner.same(&ctx.owner) {
        return Err(TokenError::Delegate(DelegateError::UnauthorizedOwner));
    }
    if ctx.ata_account.delegate.is_some() {
        return Err(TokenError::Delegate(DelegateError::DelegateAlreadySet));
    }
    if amount == 0 || amount > ctx.ata_account.amount {
        return Err(TokenError::Delegate(DelegateError::InvalidAmount));
    }
    ctx.ata_account.delegate = Some(ctx.delegate);
    ctx.ata_account.delegate_amount = amount;
    Ok(())
}

/// Dismisses the account's delegate, if it has one.
pub fn revoke_delegation(ctx: &mut RevokeDelegation) -> (r: Result<(), TokenError>)
    ensures
        match spec_revoke_delegation(*old(ctx)) {
            Ok(after) => r is Ok && *final(ctx) == after,
            Err(e) => r == Err::<(), TokenError>(e) && *final(ctx) == *old(ctx),
        },
{
    if !ctx.ata_account.owner.same(&ctx.owner) {
        return Err(TokenError::Delegate(DelegateError::UnauthorizedOwner));
    }
    ctx.ata_account.delegate = None;
    ctx.ata_account.delegate_amount = 0;
    Ok(())
}

/// Moves `amount` from one account to the other, on the authority of the
/// owner of the first or of its delegate.
pub fn transfer(ctx: &mut Transfer, amount: u64) -> (r: Result<(), TokenError>)
    ensures
        match spec_transfer(*old(ctx), amount) {
            Ok(after) => r is Ok && *final(ctx) == after,
            Err(e) => r == Err::<(), TokenError>(e) && *final(ctx) == *old(ctx),
        },
{
    if !ctx.from.is_initialized {
        return Err(TokenError::Delegate(DelegateError::ATANotInitialized));
    }
    if amount == 0 {
        return Err(TokenError::Delegate(DelegateError::InvalidAmount));
    }
    if ctx.from.amount < amount {
        return Err(TokenError::Delegate(DelegateError::AmountOverflow));
    }
    let by_owner: bool = ctx.signer.same(&ctx.from.owner);
    if !by_owner {
        let is_delegate: bool = match &ctx.from.delegate {
            Some(d) => d.same(&ctx.signer),
            None => false,
        };
        if !is_delegate {
            return Err(TokenError::Delegate(DelegateError::UnauthorizedOwner));
        }
        if ctx.from.delegate_amount < amount {
            return Err(TokenError::Delegate(DelegateError::InvalidAmount));
        }
    }
    let received: u64 = match ctx.to.amount.checked_add(amount) {
        Some(received) => received,
        None => {
            return Err(TokenError::Delegate(DelegateError::AmountOverflow));
        },
    };
    if !by_owner {
        ctx.from.delegate_amount = ctx.from.delegate_amount - amount;
    }
    ctx.from.amount = ctx.from.amount - amount;
    ctx.to.amount = received;
    Ok(())
}

/// Freezes the token.
pub fn freeze(ctx: &mut Freeze) -> (r: Result<(), TokenError>)
    ensures
        match spec_freeze(*old(ctx)) {
            Ok(after) => r is Ok && *final(ctx) == after,
            Err(e) => r == Err::<(), TokenError>(e) && *final(ctx) == *old(ctx),
        },
{
    if ctx.mint_account.is_frozen {
        return Err(TokenError::Mint(MintError::MintFrozen));
    }
    ctx.mint_account.is_frozen = true;
    Ok(())
}

/// Thaws the token.
pub fn thaw(ctx: &mut Thaw) -> (r: Result<(), TokenError>)
    ensures
        match spec_thaw(*old(ctx)) {
            Ok(after) => r is Ok && *final(ctx) == after,
            Err(e) => r == Err::<(), TokenError>(e) && *final(ctx) == *old(ctx),
        },
{
    if !ctx.mint_account.is_frozen {
        return Err(TokenError::Mint(MintError::MintNotFrozen));
    }
    ctx.mint_account.is_frozen = false;
    Ok(())
}

} // verus!
