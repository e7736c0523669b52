//! How a vault is tied to the two resources that it alone controls: the
//! account that keeps the underlying asset in custody, and the mint of the
//! claim asset.

use vstd::prelude::*;
use crate::state::{Account, Vault};
use crate::token::{Mint, TokenAccount};

verus! {

/// `custody` is the account in which `vault` keeps the underlying asset:
/// the vault refers to it, owns it, and it holds the vault's underlying
/// asset.
pub open spec fn keeps_custody_in(vault: Account<Vault>, custody: Account<TokenAccount>) -> bool {
    &&& custody.key == vault.data.underlying_token_account
    &&& custody.data.owner == vault.key
    &&& custody.data.mint == vault.data.underlying_token_mint
}

/// `mint` is the claim asset of `vault`: the vault refers to it and is the
/// one that may issue it.
pub open spec fn issues(vault: Account<Vault>, mint: Account<Mint>) -> bool {
    &&& mint.key == vault.data.conditional_token_mint
    &&& mint.data.spec_issued_by(vault.key)
}

pub fn check_keeps_custody_in(vault: &Account<Vault>, custody: &Account<TokenAccount>) -> (r: bool)
    ensures
        r == keeps_custody_in(*vault, *custody),
{
    custody.key == vault.data.underlying_token_account && custody.data.owner == vault.key
        && custody.data.mint == vault.data.underlying_token_mint
}

pub fn check_issues(vault: &Account<Vault>, mint: &Account<Mint>) -> (r: bool)
    ensures
        r == issues(*vault, *mint),
{
    mint.key == vault.data.conditional_token_mint && mint.data.issued_by(&vault.key)
}

} // verus!
