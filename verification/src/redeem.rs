//! The two ways out of a vault. Claims are redeemed once the proposal has
//! resolved to the vault's branch; deposit slips are redeemed once it has
//! resolved to the other one. A proposal resolves once, so a vault pays
//! out along one of the two ways only.

use vstd::prelude::*;
use crate::address::Address;
use crate::error::ErrorCode;
use crate::state::{Account, ConditionalExpression, DepositSlip, Proposal, Signer, Vault};
use crate::token::{burn, transfer, Burn, CpiContext, Mint, TokenAccount, Transfer};
use crate::vault::{check_issues, check_keeps_custody_in, issues, keeps_custody_in};

verus! {

/// `expression` is the branch that `vault` belongs to, and `proposal` is
/// the proposal of that branch.
pub open spec fn branch_of(
    vault: Account<Vault>,
    expression: Account<ConditionalExpression>,
    proposal: Account<Proposal>,
) -> bool {
    &&& vault.data.conditional_expression == expression.key
    &&& expression.data.proposal == proposal.key
}

pub fn check_branch_of(
    vault: &Account<Vault>,
    expression: &Account<ConditionalExpression>,
    proposal: &Account<Proposal>,
) -> (r: bool)
    ensures
        r == branch_of(*vault, *expression, *proposal),
{
    vault.data.conditional_expression == expression.key && expression.data.proposal
        == proposal.key
}

/// The records that a redemption of claims reads and writes.
#[derive(Clone, Copy, Debug)]
pub struct RedeemConditionalTokensForUnderlyingTokens {
    pub vault: Account<Vault>,
    pub conditional_token_mint: Account<Mint>,
    pub conditional_expression: Account<ConditionalExpression>,
    pub proposal: Account<Proposal>,
    pub vault_underlying_token_account: Account<TokenAccount>,
    pub user: Signer,
    pub user_conditional_token_account: Account<TokenAccount>,
    pub user_underlying_token_account: Account<TokenAccount>,
    pub token_program: Address,
}

impl RedeemConditionalTokensForUnderlyingTokens {
    /// The proposal has resolved to the branch of the vault. The branch and
    /// the proposal must be the vault's own before the question is put.
    pub open spec fn gate(&self) -> Result<(), ErrorCode> {
        if !branch_of(self.vault, self.conditional_expression, self.proposal) {
            Err(ErrorCode::MismatchedReference)
        } else if !self.conditional_expression.data.spec_matches(self.proposal.data.state) {
            Err(ErrorCode::ProposalNotResolvedInFavor)
        } else {
            Ok(())
        }
    }

    /// The user has signed, and every other record is the one that the
    /// vault and the user refer to.
    pub open spec fn references(&self) -> Result<(), ErrorCode> {
        if !self.user.is_signer {
            Err(ErrorCode::Unauthorized)
        } else if !issues(self.vault, self.conditional_token_mint) {
            Err(ErrorCode::MismatchedReference)
        } else if !keeps_custody_in(self.vault, self.vault_underlying_token_account) {
            Err(ErrorCode::MismatchedReference)
        } else if self.user_conditional_token_account.data.held_for(
            self.user.key,
            self.conditional_token_mint.key,
        ) is Err {
            self.user_conditional_token_account.data.held_for(
                self.user.key,
                self.conditional_token_mint.key,
            )
        } else if self.user_underlying_token_account.data.held_for(
            self.user.key,
            self.vault.data.underlying_token_mint,
        ) is Err {
            self.user_underlying_token_account.data.held_for(
                self.user.key,
                self.vault.data.underlying_token_mint,
            )
        } else if self.user_underlying_token_account.key == self.vault_underlying_token_account.key
            || self.user_conditional_token_account.key == self.vault_underlying_token_account.key
            || self.user_conditional_token_account.key == self.user_underlying_token_account.key {
            Err(ErrorCode::MismatchedReference)
        } else {
            Ok(())
        }
    }

    /// Whether a redemption of `amount` is accepted, and why not: first the
    /// resolution, then the references, then the redeemer's claims, then
    /// what the supply and the custody account can give, then the room in
    /// the redeemer's underlying account.
    pub open spec fn checked(&self, amount: u64) -> Result<(), ErrorCode> {
        if self.gate() is Err {
            self.gate()
        } else if self.references() is Err {
            self.references()
        } else if self.user_conditional_token_account.data.amount < amount {
            Err(ErrorCode::InsufficientClaimBalance)
        } else if self.conditional_token_mint.data.supply < amount
            || self.vault_underlying_token_account.data.amount < amount {
            Err(ErrorCode::InsufficientBalance)
        } else if self.user_underlying_token_account.data.amount + amount > u64::MAX {
            Err(ErrorCode::Overflow)
        } else {
            Ok(())
        }
    }

    /// The records after a redemption of `amount`: the claims are gone
    /// from the redeemer's claim account and from the supply, and the same
    /// amount has left custody for the redeemer's underlying account.
    pub open spec fn redeemed(self, amount: u64) -> RedeemConditionalTokensForUnderlyingTokens {
        RedeemConditionalTokensForUnderlyingTokens {
            conditional_token_mint: self.conditional_token_mint.with_data(
                Mint {
                    supply: (self.conditional_token_mint.data.supply - amount) as u64,
                    ..self.conditional_token_mint.data
                },
            ),
            vault_underlying_token_account: self.vault_underlying_token_account.with_data(
                self.vault_underlying_token_account.data.with_amount(
                    self.vault_underlying_token_account.data.amount - amount,
                ),
            ),
            user_conditional_token_account: self.user_conditional_token_account.with_data(
                self.user_conditional_token_account.data.with_amount(
                    self.user_conditional_token_account.data.amount - amount,
                ),
            ),
            user_underlying_token_account: self.user_underlying_token_account.with_data(
                self.user_underlying_token_account.data.with_amount(
                    self.user_underlying_token_account.data.amount + amount,
                ),
            ),
            ..self
        }
    }

    /// The accounts of the destruction of the claims: out of the user's
    /// claim account, on the user's authority.
    pub fn into_burn_conditional_tokens_context(&self) -> (c: CpiContext<Burn>)
        ensures
            c.program == self.token_program,
            c.accounts == (Burn {
                mint: self.conditional_token_mint.key,
                from: self.user_conditional_token_account.key,
                authority: self.user.key,
            }),
    {
        let cpi_accounts = Burn {
            mint: self.conditional_token_mint.key,
            from: self.user_conditional_token_account.key,
            authority: self.user.key,
        };
        CpiContext::new(self.token_program, cpi_accounts)
    }

    /// The accounts of the transfer that pays the redeemer: out of custody,
    /// on the vault's authority.
    pub fn into_transfer_underlying_tokens_to_user_context(&self) -> (c: CpiContext<Transfer>)
        ensures
            c.program == self.token_program,
            c.accounts == (Transfer {
                from: self.vault_underlying_token_account.key,
                to: self.user_underlying_token_account.key,
                authority: self.vault.key,
            }),
    {
        let cpi_accounts = Transfer {
            from: self.vault_underlying_token_account.key,
            to: self.user_underlying_token_account.key,
            authority: self.vault.key,
        };
        CpiContext::new(self.token_program, cpi_accounts)
    }

    pub fn check_gate(&self) -> (r: Result<(), ErrorCode>)
        ensures
            r == self.gate(),
    {
        if !check_branch_of(&self.vault, &self.conditional_expression, &self.proposal) {
            return Err(ErrorCode::MismatchedReference);
        }
        if !self.conditional_expression.data.matches(self.proposal.data.state) {
            return Err(ErrorCode::ProposalNotResolvedInFavor);
        }
        Ok(())
    }

    pub fn check_references(&self) -> (r: Result<(), ErrorCode>)
        ensures
            r == self.references(),
    {
        if !self.user.is_signer {
            return Err(ErrorCode::Unauthorized);
        }
        if !check_issues(&self.vault, &self.conditional_token_mint) {
            return Err(ErrorCode::MismatchedReference);
        }
        if !check_keeps_custody_in(&self.vault, &self.vault_underlying_token_account) {
            return Err(ErrorCode::MismatchedReference);
        }
        let held = self.user_conditional_token_account.data.check_held_for(
            &self.user.key,
            &self.conditional_token_mint.key,
        );
        if held.is_err() {
            return held;
        }
        let held = self.user_underlying_token_account.data.check_held_for(
            &self.user.key,
            &self.vault.data.underlying_token_mint,
        );
        if held.is_err() {
            return held;
        }
        if self.user_underlying_token_account.key == self.vault_underlying_token_account.key
            || self.user_conditional_token_account.key == self.vault_underlying_token_account.key
            || self.user_conditional_token_account.key == self.user_underlying_token_account.key {
            return Err(ErrorCode::MismatchedReference);
        }
        Ok(())
    }

    /// Decides whether a redemption of `amount` is accepted.
    pub fn validate(&self, amount: u64) -> (r: Result<(), ErrorCode>)
        ensures
            r == self.checked(amount),
    {
        let open = self.check_gate();
        if open.is_err() {
            return open;
        }
        let wired = self.check_references();
        if wired.is_err() {
            return wired;
        }
        if self.user_conditional_token_account.data.amount < amount {
            return Err(ErrorCode::InsufficientClaimBalance);
        }
        if self.conditional_token_mint.data.supply < amount
            || self.vault_underlying_token_account.data.amount < amount {
            return Err(ErrorCode::InsufficientBalance);
        }
        if amount > u64::MAX - self.user_underlying_token_account.data.amount {
            return Err(ErrorCode::Overflow);
        }
        Ok(())
    }

    /// Redeems `amount` of claims, or refuses and changes nothing.
    pub fn process(&mut self, amount: u64) -> (r: Result<(), ErrorCode>)
        ensures
            r == old(self).checked(amount),
            r is Ok ==> *final(self) == old(self).redeemed(amount),
            r is Err ==> *final(self) == *old(self),
    {
        let accepted = self.validate(amount);
        if accepted.is_err() {
            return accepted;
        }
        let destroyed = burn(
            &self.conditional_token_mint,
            self.user_conditional_token_account.data,
            &self.into_burn_conditional_tokens_context().accounts.authority,
            amount,
        );
        let paid = transfer(
            self.vault_underlying_token_account.data,
            self.user_underlying_token_account.data,
            &self.into_transfer_underlying_tokens_to_user_context().accounts.authority,
            amount,
        );
        match (destroyed, paid) {
            (Ok((mint, user_conditional)), Ok((custody, user_underlying))) => {
                self.conditional_token_mint.data = mint;
                self.user_conditional_token_account.data = user_conditional;
                self.vault_underlying_token_account.data = custody;
                self.user_underlying_token_account.data = user_underlying;
                Ok(())
            },
            (Err(e), _) => Err(e),
            (_, Err(e)) => Err(e),
        }
    }
}

/// The records that a redemption of a deposit slip reads and writes.
#[derive(Clone, Copy, Debug)]
pub struct RedeemDepositSlipForUnderlyingTokens {
    pub vault: Account<Vault>,
    pub conditional_expression: Account<ConditionalExpression>,
    pub proposal: Account<Proposal>,
    pub vault_underlying_token_account: Account<TokenAccount>,
    pub user: Signer,
    pub user_deposit_slip: Account<DepositSlip>,
    pub user_underlying_token_account: Account<TokenAccount>,
    pub token_program: Address,
}

impl RedeemDepositSlipForUnderlyingTokens {
    /// The proposal has resolved, and to the other branch than the
    /// vault's. The branch and the proposal must be the vault's own before
    /// the question is put.
    pub open spec fn gate(&self) -> Result<(), ErrorCode> {
        if !branch_of(self.vault, self.conditional_expression, self.proposal) {
            Err(ErrorCode::MismatchedReference)
        } else if !self.conditional_expression.data.spec_lost(self.proposal.data.state) {
            Err(ErrorCode::ProposalNotResolvedAgainst)
        } else {
            Ok(())
        }
    }

    /// The user has signed, and every other record is the one that the
    /// vault and the user refer to.
    pub open spec fn references(&self) -> Result<(), ErrorCode> {
        if !self.user.is_signer {
            Err(ErrorCode::Unauthorized)
        } else if !keeps_custody_in(self.vault, self.vault_underlying_token_account) {
            Err(ErrorCode::MismatchedReference)
        } else if self.user_deposit_slip.data.user != self.user.key
            || self.user_deposit_slip.data.vault != self.vault.key {
            Err(ErrorCode::MismatchedReference)
        } else if self.user_underlying_token_account.data.held_for(
            self.user.key,
            self.vault_underlying_token_account.data.mint,
        ) is Err {
            self.user_underlying_token_account.data.held_for(
                self.user.key,
                self.vault_underlying_token_account.data.mint,
            )
        } else if self.user_underlying_token_account.key
            == self.vault_underlying_token_account.key {
            Err(ErrorCode::MismatchedReference)
        } else {
            Ok(())
        }
    }

    /// Whether the slip is redeemed, and why not: first the resolution,
    /// then the references, then the slip, which must hold something, then
    /// what the custody account can give, then the room in the depositor's
    /// underlying account.
    pub open spec fn checked(&self) -> Result<(), ErrorCode> {
        if self.gate() is Err {
            self.gate()
        } else if self.references() is Err {
            self.references()
        } else if self.user_deposit_slip.data.deposited_amount == 0 {
            Err(ErrorCode::NotFound)
        } else if self.vault_underlying_token_account.data.amount
            < self.user_deposit_slip.data.deposited_amount {
            Err(ErrorCode::InsufficientBalance)
        } else if self.user_underlying_token_account.data.amount
            + self.user_deposit_slip.data.deposited_amount > u64::MAX {
            Err(ErrorCode::Overflow)
        } else {
            Ok(())
        }
    }

    /// What a redemption pays: all that the slip holds.
    pub open spec fn payout(&self) -> u64 {
        self.user_deposit_slip.data.deposited_amount
    }

    /// The records after the redemption: what the slip held has left
    /// custody for the depositor's underlying account, and the slip holds
    /// nothing.
    pub open spec fn redeemed(self) -> RedeemDepositSlipForUnderlyingTokens {
        RedeemDepositSlipForUnderlyingTokens {
            vault_underlying_token_account: self.vault_underlying_token_account.with_data(
                self.vault_underlying_token_account.data.with_amount(
                    self.vault_underlying_token_account.data.amount - self.payout(),
                ),
            ),
            user_deposit_slip: self.user_deposit_slip.with_data(
                DepositSlip { deposited_amount: 0, ..self.user_deposit_slip.data },
            ),
            user_underlying_token_account: self.user_underlying_token_account.with_data(
                self.user_underlying_token_account.data.with_amount(
                    self.user_underlying_token_account.data.amount + self.payout(),
                ),
            ),
            ..self
        }
    }

    /// The accounts of the transfer that pays the depositor: out of
    /// custody, on the vault's authority.
    pub fn into_transfer_underlying_tokens_to_user_context(&self) -> (c: CpiContext<Transfer>)
        ensures
            c.program == self.token_program,
            c.accounts == (Transfer {
                from: self.vault_underlying_token_account.key,
                to: self.user_underlying_token_account.key,
                authority: self.vault.key,
            }),
    {
        let cpi_accounts = Transfer {
            from: self.vault_underlying_token_account.key,
            to: self.user_underlying_token_account.key,
            authority: self.vault.key,
        };
        CpiContext::new(self.token_program, cpi_accounts)
    }

    pub fn check_gate(&self) -> (r: Result<(), ErrorCode>)
        ensures
            r == self.gate(),
    {
        if !check_branch_of(&self.vault, &self.conditional_expression, &self.proposal) {
            return Err(ErrorCode::MismatchedReference);
        }
        if !self.conditional_expression.data.lost(self.proposal.data.state) {
            return Err(ErrorCode::ProposalNotResolvedAgainst);
        }
        Ok(())
    }

    pub fn check_references(&self) -> (r: Result<(), ErrorCode>)
        ensures
            r == self.references(),
    {
        if !self.user.is_signer {
            return Err(ErrorCode::Unauthorized);
        }
        if !check_keeps_custody_in(&self.vault, &self.vault_underlying_token_account) {
            return Err(ErrorCode::MismatchedReference);
        }
        if self.user_deposit_slip.data.user != self.user.key || self.user_deposit_slip.data.vault
            != self.vault.key {
            return Err(ErrorCode::MismatchedReference);
        }
        let held = self.user_underlying_token_account.data.check_held_for(
            &self.user.key,
            &self.vault_underlying_token_account.data.mint,
        );
        if held.is_err() {
            return held;
        }
        if self.user_underlying_token_account.key == self.vault_underlying_token_account.key {
            return Err(ErrorCode::MismatchedReference);
        }
        Ok(())
    }

    /// Decides whether the slip is redeemed.
    pub fn validate(&self) -> (r: Result<(), ErrorCode>)
        ensures
            r == self.checked(),
    {
        let open = self.check_gate();
        if open.is_err() {
            return open;
        }
        let wired = self.check_references();
        if wired.is_err() {
            return wired;
        }
        let amount = self.user_deposit_slip.data.deposited_amount;
        if amount == 0 {
            return Err(ErrorCode::NotFound);
        }
        if self.vault_underlying_token_account.data.amount < amount {
            return Err(ErrorCode::InsufficientBalance);
        }
        if amount > u64::MAX - self.user_underlying_token_account.data.amount {
            return Err(ErrorCode::Overflow);
        }
        Ok(())
    }

    /// Redeems the slip and says what it paid, or refuses and changes
    /// nothing.
    pub fn process(&mut self) -> (r: Result<u64, ErrorCode>)
        ensures
            match old(self).checked() {
                Ok(_) => r == Ok::<u64, ErrorCode>(old(self).payout()) && *final(self) == old(self).redeemed(),
                Err(e) => r == Err::<u64, ErrorCode>(e) && *final(self) == *old(self),
            },
    {
        match self.validate() {
            Err(e) => {
                return Err(e);
            },
            Ok(_) => {},
        }
        let amount = self.user_deposit_slip.data.deposited_amount;
        let paid = transfer(
            self.vault_underlying_token_account.data,
            self.user_underlying_token_account.data,
            &self.into_transfer_underlying_tokens_to_user_context().accounts.authority,
            amount,
        );
        match paid {
            Ok((custody, user_underlying)) => {
                self.vault_underlying_token_account.data = custody;
                self.user_underlying_token_account.data = user_underlying;
                self.user_deposit_slip.data.deposited_amount = 0;
                Ok(amount)
            },
            Err(e) => Err(e),
        }
    }
}

} // verus!
