//! The token ledger as the pool sees it: balances that move between
//! accounts on their owner's authority, and a share token whose supply
//! grows when shares are minted and shrinks when they are burned.
//!
//! Each operation either applies in full or leaves both of its accounts
//! untouched.

use vstd::prelude::*;
use crate::error::{AmmDexError, AmmError};
use crate::identity::Identity;

verus! {

/// A balance of one asset, and the authority that may move it.
#[derive(Clone, Copy, Debug, PartialEq, Eq, Structural)]
pub struct TokenAccount {
    pub owner: Identity,
    pub amount: u64,
}

/// A token: the authority that may mint it, and how much of it exists.
#[derive(Clone, Copy, Debug, PartialEq, Eq, Structural)]
pub struct Mint {
    pub authority: Identity,
    pub supply: u64,
}

/// The two accounts after a transfer, or the reason it is refused.
pub open spec fn spec_transfer(
    from: TokenAccount,
    to: TokenAccount,
    amount: u64,
    authority: Identity,
) -> Result<(TokenAccount, TokenAccount), AmmError> {
    if authority != from.owner {
        Err(AmmError::Dex(AmmDexError::InvalidAuthority))
    } else if from.amount < amount {
        Err(AmmError::Dex(AmmDexError::InsufficientFunds))
    } else if to.amount + amount > u64::MAX {
        Err(AmmError::Dex(AmmDexError::ArithmeticOverflow))
    } else {
        Ok(
            (
                TokenAccount { owner: from.owner, amount: (from.amount - amount) as u64 },
                TokenAccount { owner: to.owner, amount: (to.amount + amount) as u64 },
            ),
        )
    }
}

/// The token and the receiving account after a mint, or the reason it is
/// refused.
pub open spec fn spec_mint_to(mint: Mint, to: TokenAccount, amount: u64, authority: Identity) -> Result<
    (Mint, TokenAccount),
    AmmError,
> {
    if authority != mint.authority {
        Err(AmmError::Dex(AmmDexError::InvalidAuthority))
    } else if mint.supply + amount > u64::MAX || to.amount + amount > u64::MAX {
        Err(AmmError::Dex(AmmDexError::ArithmeticOverflow))
    } else {
        Ok(
            (
                Mint { authority: mint.authority, supply: (mint.supply + amount) as u64 },
                TokenAccount { owner: to.owner, amount: (to.amount + amount) as u64 },
            ),
        )
    }
}

/// The token and the paying account after a burn, or the reason it is
/// refused.
pub open spec fn spec_burn(mint: Mint, from: TokenAccount, amount: u64, authority: Identity) -> Result<
    (Mint, TokenAccount),
    AmmError,
> {
    if authority != from.owner {
        Err(AmmError::Dex(AmmDexError::InvalidAuthority))
    } else if from.amount < amount || mint.supply < amount {
        Err(AmmError::Dex(AmmDexError::InsufficientFunds))
    } else {
        Ok(
            (
                Mint { authority: mint.authority, supply: (mint.supply - amount) as u64 },
                TokenAccount { owner: from.owner, amount: (from.amount - amount) as u64 },
            ),
        )
    }
}

/// An empty account of `owner`.
pub fn create_account(owner: Identity) -> (account: TokenAccount)
    ensures
        account == (TokenAccount { owner, amount: 0 }),
{
    TokenAccount { owner, amount: 0 }
}

/// The balance of an account.
pub fn read_balance(account: &TokenAccount) -> (amount: u64)
    ensures
        amount == account.amount,
{
    account.amount
}

/// How much of a token exists.
pub fn read_supply(mint: &Mint) -> (supply: u64)
    ensures
        supply == mint.supply,
{
    mint.supply
}

/// Moves `amount` from one account to another on the authority of the
/// owner of the first.
pub fn transfer(
    from: &mut TokenAccount,
    to: &mut TokenAccount,
    amount: u64,
    authority: &Identity,
) -> (r: Result<(), AmmError>)
    ensures
        match spec_transfer(*old(from), *old(to), amount, *authority) {
            Ok((f, t)) => r is Ok && *final(from) == f && *final(to) == t,
            Err(e) => r == Err::<(), AmmError>(e) && *final(from) == *old(from) && *final(to)
                == *old(to),
        },
{
    if !authority.same(&from.owner) {
        return Err(AmmError::Dex(AmmDexError::InvalidAuthority));
    }
    if from.amount < amount {
        return Err(AmmError::Dex(AmmDexError::InsufficientFunds));
    }
    if amount > u64::MAX - to.amount {
        return Err(AmmError::Dex(AmmDexError::ArithmeticOverflow));
    }
    from.amount = from.amount - amount;
    to.amount = to.amount + amount;
    Ok(())
}

/// Creates `amount` of a token in an account, on the authority of the
/// token's minter.
pub fn mint_to(mint: &mut Mint, to: &mut TokenAccount, amount: u64, authority: &Identity) -> (r:
    Result<(), AmmError>)
    ensures
        match spec_mint_to(*old(mint), *old(to), amount, *authority) {
            Ok((m, t)) => r is Ok && *final(mint) == m && *final(to) == t,
            Err(e) => r == Err::<(), AmmError>(e) && *final(mint) == *old(mint) && *final(to)
                == *old(to),
        },
{
    if !authority.same(&mint.authority) {
        return Err(AmmError::Dex(AmmDexError::InvalidAuthority));
    }
    if amount > u64::MAX - mint.supply || amount > u64::MAX - to.amount {
        return Err(AmmError::Dex(AmmDexError::ArithmeticOverflow));
    }
    mint.supply = mint.supply + amount;
    to.amount = to.amount + amount;
    Ok(())
}

/// Destroys `amount` of a token held in an account, on the authority of the
/// account's owner.
pub fn burn(mint: &mut Mint, from: &mut TokenAccount, amount: u64, authority: &Identity) -> (r:
    Result<(), AmmError>)
    ensures
        match spec_burn(*old(mint), *old(from), amount, *authority) {
            Ok((m, f)) => r is Ok && *final(mint) == m && *final(from) == f,
            Err(e) => r == Err::<(), AmmError>(e) && *final(mint) == *old(mint) && *final(from)
                == *old(from),
        },
{
    if !authority.same(&from.owner) {
        return Err(AmmError::Dex(AmmDexError::InvalidAuthority));
    }
    if from.amount < amount || mint.supply < amount {
        return Err(AmmError::Dex(AmmDexError::InsufficientFunds));
    }
    mint.supply = mint.supply - amount;
    from.amount = from.amount - amount;
    Ok(())
}

} // verus!
