//! Depositing: the underlying asset goes into the custody of a vault, and
//! the same amount of the vault's claim asset is issued to the depositor
//! and written on the depositor's slip.

use vstd::prelude::*;
use crate::address::Address;
use crate::error::ErrorCode;
use crate::state::{Account, DepositSlip, Signer, Vault};
use crate::token::{mint_to, transfer, CpiContext, Mint, MintTo, TokenAccount, Transfer};
use crate::vault::{check_issues, check_keeps_custody_in, issues, keeps_custody_in};

verus! {

/// The records that a deposit reads and writes.
#[derive(Clone, Copy, Debug)]
pub struct MintConditionalTokens {
    pub vault: Account<Vault>,
    pub conditional_token_mint: Account<Mint>,
    pub vault_underlying_token_account: Account<TokenAccount>,
    pub user: Signer,
    pub deposit_slip: Account<DepositSlip>,
    pub user_underlying_token_account: Account<TokenAccount>,
    pub user_conditional_token_account: Account<TokenAccount>,
    pub token_program: Address,
}

impl MintConditionalTokens {
    /// The user has signed, and every record is the one that the vault and
    /// the user refer to. The first requirement that fails decides the
    /// error.
    pub open spec fn references(&self) -> Result<(), ErrorCode> {
        if !self.user.is_signer {
            Err(ErrorCode::Unauthorized)
        } else if !issues(self.vault, self.conditional_token_mint) {
            Err(ErrorCode::MismatchedReference)
        } else if !keeps_custody_in(self.vault, self.vault_underlying_token_account) {
            Err(ErrorCode::MismatchedReference)
        } else if self.deposit_slip.data.user != self.user.key || self.deposit_slip.data.vault
            != self.vault.key {
            Err(ErrorCode::MismatchedReference)
        } else if self.user_underlying_token_account.data.held_for(
            self.user.key,
            self.vault.data.underlying_token_mint,
        ) is Err {
            self.user_underlying_token_account.data.held_for(
                self.user.key,
                self.vault.data.underlying_token_mint,
            )
        } else if self.user_conditional_token_account.data.held_for(
            self.user.key,
            self.conditional_token_mint.key,
        ) is Err {
            self.user_conditional_token_account.data.held_for(
                self.user.key,
                self.conditional_token_mint.key,
            )
        } else if self.user_underlying_token_account.key == self.vault_underlying_token_account.key
            || self.user_conditional_token_account.key == self.vault_underlying_token_account.key
            || self.user_conditional_token_account.key == self.user_underlying_token_account.key {
            Err(ErrorCode::MismatchedReference)
        } else {
            Ok(())
        }
    }

    /// Whether a deposit of `amount` is accepted, and why not: first the
    /// references, then the amount, then the depositor's balance, then the
    /// room that is left in the four balances that grow.
    pub open spec fn checked(&self, amount: u64) -> Result<(), ErrorCode> {
        if self.references() is Err {
            self.references()
        } else if amount == 0 {
            Err(ErrorCode::InvalidAmount)
        } else if self.user_underlying_token_account.data.amount < amount {
            Err(ErrorCode::InsufficientUnderlyingBalance)
        } else if self.vault_underlying_token_account.data.amount + amount > u64::MAX
            || self.conditional_token_mint.data.supply + amount > u64::MAX
            || self.user_conditional_token_account.data.amount + amount > u64::MAX
            || self.deposit_slip.data.deposited_amount + amount > u64::MAX {
            Err(ErrorCode::Overflow)
        } else {
            Ok(())
        }
    }

    /// The records after a deposit of `amount`: the amount has left the
    /// depositor's underlying account for the custody account, and has been
    /// added to the claim asset's supply, to the depositor's claim account
    /// and to the slip.
    pub open spec fn deposited(self, amount: u64) -> MintConditionalTokens {
        MintConditionalTokens {
            conditional_token_mint: self.conditional_token_mint.with_data(
                Mint {
                    supply: (self.conditional_token_mint.data.supply + amount) as u64,
                    ..self.conditional_token_mint.data
                },
            ),
            vault_underlying_token_account: self.vault_underlying_token_account.with_data(
                self.vault_underlying_token_account.data.with_amount(
                    self.vault_underlying_token_account.data.amount + amount,
                ),
            ),
            deposit_slip: self.deposit_slip.with_data(
                DepositSlip {
                    deposited_amount: (self.deposit_slip.data.deposited_amount + amount) as u64,
                    ..self.deposit_slip.data
                },
            ),
            user_underlying_token_account: self.user_underlying_token_account.with_data(
                self.user_underlying_token_account.data.with_amount(
                    self.user_underlying_token_account.data.amount - amount,
                ),
            ),
            user_conditional_token_account: self.user_conditional_token_account.with_data(
                self.user_conditional_token_account.data.with_amount(
                    self.user_conditional_token_account.data.amount + amount,
                ),
            ),
            ..self
        }
    }

    /// The accounts of the transfer that brings the underlying asset into
    /// custody: out of the user's account, on the user's authority.
    pub fn into_transfer_underlying_tokens_to_vault_context(&self) -> (c: CpiContext<Transfer>)
        ensures
            c.program == self.token_program,
            c.accounts == (Transfer {
                from: self.user_underlying_token_account.key,
                to: self.vault_underlying_token_account.key,
                authority: self.user.key,
            }),
    {
        let cpi_accounts = Transfer {
            from: self.user_underlying_token_account.key,
            to: self.vault_underlying_token_account.key,
            authority: self.user.key,
        };
        CpiContext::new(self.token_program, cpi_accounts)
    }

    /// The accounts of the issue of the claim asset: into the user's claim
    /// account, on the vault's authority.
    pub fn into_mint_conditional_tokens_to_user_context(&self) -> (c: CpiContext<MintTo>)
        ensures
            c.program == self.token_program,
            c.accounts == (MintTo {
                mint: self.conditional_token_mint.key,
                to: self.user_conditional_token_account.key,
                authority: self.vault.key,
            }),
    {
        let cpi_accounts = MintTo {
            mint: self.conditional_token_mint.key,
            to: self.user_conditional_token_account.key,
            authority: self.vault.key,
        };
        CpiContext::new(self.token_program, cpi_accounts)
    }

    pub fn check_references(&self) -> (r: Result<(), ErrorCode>)
        ensures
            r == self.references(),
    {
        if !self.user.is_signer {
            return Err(ErrorCode::Unauthorized);
        }
        if !check_issues(&self.vault, &self.conditional_token_mint) {
            return Err(ErrorCode::MismatchedReference);
        }
        if !check_keeps_custody_in(&self.vault, &self.vault_underlying_token_account) {
            return Err(ErrorCode::MismatchedReference);
        }
        if self.deposit_slip.data.user != self.user.key || self.deposit_slip.data.vault
            != self.vault.key {
            return Err(ErrorCode::MismatchedReference);
        }
        let held = self.user_underlying_token_account.data.check_held_for(
            &self.user.key,
            &self.vault.data.underlying_token_mint,
        );
        if held.is_err() {
            return held;
        }
        let held = self.user_conditional_token_account.data.check_held_for(
            &self.user.key,
            &self.conditional_token_mint.key,
        );
        if held.is_err() {
            return held;
        }
        if self.user_underlying_token_account.key == self.vault_underlying_token_account.key
            || self.user_conditional_token_account.key == self.vault_underlying_token_account.key
            || self.user_conditional_token_account.key == self.user_underlying_token_account.key {
            return Err(ErrorCode::MismatchedReference);
        }
        Ok(())
    }

    /// Decides whether a deposit of `amount` is accepted.
    pub fn validate(&self, amount: u64) -> (r: Result<(), ErrorCode>)
        ensures
            r == self.checked(amount),
    {
        let wired = self.check_references();
        if wired.is_err() {
            return wired;
        }
        if amount == 0 {
            return Err(ErrorCode::InvalidAmount);
        }
        if self.user_underlying_token_account.data.amount < amount {
            return Err(ErrorCode::InsufficientUnderlyingBalance);
        }
        if amount > u64::MAX - self.vault_underlying_token_account.data.amount || amount > u64::MAX
            - self.conditional_token_mint.data.supply || amount > u64::MAX
            - self.user_conditional_token_account.data.amount || amount > u64::MAX
            - self.deposit_slip.data.deposited_amount {
            return Err(ErrorCode::Overflow);
        }
        Ok(())
    }

    /// Deposits `amount`, or refuses and changes nothing.
    pub fn process(&mut self, amount: u64) -> (r: Result<(), ErrorCode>)
        ensures
            r == old(self).checked(amount),
            r is Ok ==> *final(self) == old(self).deposited(amount),
            r is Err ==> *final(self) == *old(self),
    {
        let accepted = self.validate(amount);
        if accepted.is_err() {
            return accepted;
        }
        let moved = transfer(
            self.user_underlying_token_account.data,
            self.vault_underlying_token_account.data,
            &self.into_transfer_underlying_tokens_to_vault_context().accounts.authority,
            amount,
        );
        let issued = mint_to(
            &self.conditional_token_mint,
            self.user_conditional_token_account.data,
            &self.into_mint_conditional_tokens_to_user_context().accounts.authority,
            amount,
        );
        match (moved, issued) {
            (Ok((user_underlying, custody)), Ok((mint, user_conditional))) => {
                self.user_underlying_token_account.data = user_underlying;
                self.vault_underlying_token_account.data = custody;
                self.conditional_token_mint.data = mint;
                self.user_conditional_token_account.data = user_conditional;
                self.deposit_slip.data.deposited_amount = self.deposit_slip.data.deposited_amount
                    + amount;
                Ok(())
            },
            (Err(e), _) => Err(e),
            (_, Err(e)) => Err(e),
        }
    }
}

} // verus!
