//! Fungible assets as the engine sees them: mints, token accounts, and the
//! three movements that an asset custodian offers. Each movement either
//! happens in full or leaves both records as they were.

use vstd::prelude::*;
use crate::address::Address;
use crate::error::ErrorCode;
use crate::state::Account;

verus! {

/// An asset: who may issue it, and how much of it is in circulation.
#[derive(Clone, Copy, Debug, PartialEq, Eq)]
pub struct Mint {
    pub mint_authority: Option<Address>,
    pub supply: u64,
    pub decimals: u8,
    pub freeze_authority: Option<Address>,
}

/// A holding of one asset by one owner.
#[derive(Clone, Copy, Debug, PartialEq, Eq)]
pub struct TokenAccount {
    pub mint: Address,
    pub owner: Address,
    pub amount: u64,
}

/// The accounts of a transfer between two holdings of one asset.
#[derive(Clone, Copy, Debug, PartialEq, Eq)]
pub struct Transfer {
    pub from: Address,
    pub to: Address,
    pub authority: Address,
}

/// The accounts of an issue of new units into a holding.
#[derive(Clone, Copy, Debug, PartialEq, Eq)]
pub struct MintTo {
    pub mint: Address,
    pub to: Address,
    pub authority: Address,
}

/// The accounts of a destruction of units out of a holding.
#[derive(Clone, Copy, Debug, PartialEq, Eq)]
pub struct Burn {
    pub mint: Address,
    pub from: Address,
    pub authority: Address,
}

/// A call into another program: which program, and on which accounts.
#[derive(Clone, Copy, Debug, PartialEq, Eq)]
pub struct CpiContext<T> {
    pub program: Address,
    pub accounts: T,
}

impl<T> CpiContext<T> {
    pub fn new(program: Address, accounts: T) -> (c: CpiContext<T>)
        ensures
            c.program == program,
            c.accounts == accounts,
    {
        CpiContext { program, accounts }
    }
}

impl Mint {
    /// A mint with nothing in circulation, issued and frozen by `authority`.
    pub fn new(authority: Address, decimals: u8) -> (m: Mint)
        ensures
            m == (Mint {
                mint_authority: Some(authority),
                supply: 0,
                decimals,
                freeze_authority: Some(authority),
            }),
    {
        Mint { mint_authority: Some(authority), supply: 0, decimals, freeze_authority: Some(authority) }
    }

    pub open spec fn spec_issued_by(&self, authority: Address) -> bool {
        self.mint_authority == Some(authority)
    }

    /// `authority` is the one that may issue this asset.
    pub fn issued_by(&self, authority: &Address) -> (r: bool)
        ensures
            r == self.spec_issued_by(*authority),
    {
        match &self.mint_authority {
            Some(a) => *a == *authority,
            None => false,
        }
    }
}

impl TokenAccount {
    /// An empty holding of `mint` for `owner`.
    pub fn new(mint: Address, owner: Address) -> (t: TokenAccount)
        ensures
            t == (TokenAccount { mint, owner, amount: 0 }),
    {
        TokenAccount { mint, owner, amount: 0 }
    }

    pub open spec fn with_amount(self, amount: int) -> TokenAccount {
        TokenAccount { amount: amount as u64, ..self }
    }

    /// Whether this is a holding of `mint` that `owner` may spend: another
    /// owner makes it `Unauthorized`, another asset a `MismatchedReference`.
    pub open spec fn held_for(&self, owner: Address, mint: Address) -> Result<(), ErrorCode> {
        if self.owner != owner {
            Err(ErrorCode::Unauthorized)
        } else if self.mint != mint {
            Err(ErrorCode::MismatchedReference)
        } else {
            Ok(())
        }
    }

    pub fn check_held_for(&self, owner: &Address, mint: &Address) -> (r: Result<(), ErrorCode>)
        ensures
            r == self.held_for(*owner, *mint),
    {
        if self.owner != *owner {
            Err(ErrorCode::Unauthorized)
        } else if self.mint != *mint {
            Err(ErrorCode::MismatchedReference)
        } else {
            Ok(())
        }
    }
}

/// What a transfer of `amount` from `from` to `to` gives, the two being
/// different accounts: the two holdings afterwards, or why it is refused.
pub open spec fn transferred(
    from: TokenAccount,
    to: TokenAccount,
    authority: Address,
    amount: u64,
) -> Result<(TokenAccount, TokenAccount), ErrorCode> {
    if from.owner != authority {
        Err(ErrorCode::Unauthorized)
    } else if from.mint != to.mint {
        Err(ErrorCode::MismatchedReference)
    } else if from.amount < amount {
        Err(ErrorCode::InsufficientBalance)
    } else if to.amount + amount > u64::MAX {
        Err(ErrorCode::Overflow)
    } else {
        Ok((from.with_amount(from.amount - amount), to.with_amount(to.amount + amount)))
    }
}

/// What an issue of `amount` new units of `mint` into `to` gives.
pub open spec fn minted(
    mint: Account<Mint>,
    to: TokenAccount,
    authority: Address,
    amount: u64,
) -> Result<(Mint, TokenAccount), ErrorCode> {
    if !mint.data.spec_issued_by(authority) {
        Err(ErrorCode::Unauthorized)
    } else if to.mint != mint.key {
        Err(ErrorCode::MismatchedReference)
    } else if mint.data.supply + amount > u64::MAX || to.amount + amount > u64::MAX {
        Err(ErrorCode::Overflow)
    } else {
        Ok(
            (
                Mint { supply: (mint.data.supply + amount) as u64, ..mint.data },
                to.with_amount(to.amount + amount),
            ),
        )
    }
}

/// What a destruction of `amount` units of `mint` out of `from` gives.
pub open spec fn burned(
    mint: Account<Mint>,
    from: TokenAccount,
    authority: Address,
    amount: u64,
) -> Result<(Mint, TokenAccount), ErrorCode> {
    if from.owner != authority {
        Err(ErrorCode::Unauthorized)
    } else if from.mint != mint.key {
        Err(ErrorCode::MismatchedReference)
    } else if from.amount < amount || mint.data.supply < amount {
        Err(ErrorCode::InsufficientBalance)
    } else {
        Ok(
            (
                Mint { supply: (mint.data.supply - amount) as u64, ..mint.data },
                from.with_amount(from.amount - amount),
            ),
        )
    }
}

/// Moves `amount` from `from` to `to`, which are different accounts.
pub fn transfer(from: TokenAccount, to: TokenAccount, authority: &Address, amount: u64) -> (r: Result<
    (TokenAccount, TokenAccount),
    ErrorCode,
>)
    ensures
        r == transferred(from, to, *authority, amount),
{
    if from.owner != *authority {
        Err(ErrorCode::Unauthorized)
    } else if from.mint != to.mint {
        Err(ErrorCode::MismatchedReference)
    } else if from.amount < amount {
        Err(ErrorCode::InsufficientBalance)
    } else if amount > u64::MAX - to.amount {
        Err(ErrorCode::Overflow)
    } else {
        Ok(
            (
                TokenAccount { mint: from.mint, owner: from.owner, amount: from.amount - amount },
                TokenAccount { mint: to.mint, owner: to.owner, amount: to.amount + amount },
            ),
        )
    }
}

/// Issues `amount` new units of `mint` into `to`.
pub fn mint_to(mint: &Account<Mint>, to: TokenAccount, authority: &Address, amount: u64) -> (r: Result<
    (Mint, TokenAccount),
    ErrorCode,
>)
    ensures
        r == minted(*mint, to, *authority, amount),
{
    if !mint.data.issued_by(authority) {
        Err(ErrorCode::Unauthorized)
    } else if to.mint != mint.key {
        Err(ErrorCode::MismatchedReference)
    } else if amount > u64::MAX - mint.data.supply || amount > u64::MAX - to.amount {
        Err(ErrorCode::Overflow)
    } else {
        Ok(
            (
                Mint {
                    mint_authority: mint.data.mint_authority,
                    supply: mint.data.supply + amount,
                    decimals: mint.data.decimals,
                    freeze_authority: mint.data.freeze_authority,
                },
                TokenAccount { mint: to.mint, owner: to.owner, amount: to.amount + amount },
            ),
        )
    }
}

/// Destroys `amount` units of `mint` out of `from`.
pub fn burn(mint: &Account<Mint>, from: TokenAccount, authority: &Address, amount: u64) -> (r: Result<
    (Mint, TokenAccount),
    ErrorCode,
>)
    ensures
        r == burned(*mint, from, *authority, amount),
{
    if from.owner != *authority {
        Err(ErrorCode::Unauthorized)
    } else if from.mint != mint.key {
        Err(ErrorCode::MismatchedReference)
    } else if from.amount < amount || mint.data.supply < amount {
        Err(ErrorCode::InsufficientBalance)
    } else {
        Ok(
            (
                Mint {
                    mint_authority: mint.data.mint_authority,
                    supply: mint.data.supply - amount,
                    decimals: mint.data.decimals,
                    freeze_authority: mint.data.freeze_authority,
                },
                TokenAccount { mint: from.mint, owner: from.owner, amount: from.amount - amount },
            ),
        )
    }
}

} // verus!
