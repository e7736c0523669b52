//! Setting up the branches of a proposal: the two conditional expressions,
//! a vault for a branch and an asset, and a depositor's slip on a vault.
//! Each is kept at the address derived from what identifies it.

use vstd::prelude::*;
use crate::address::Address;
use crate::error::ErrorCode;
use crate::pda::{
    associated_token_program_id, associated_token_seeds, conditional_expression_seeds,
    deposit_slip_seeds, is_associated_token_address, is_conditional_expression_address,
    is_deposit_slip_address, is_derived, is_vault_address, vault_seeds,
};
use crate::state::{
    Account, ConditionalExpression, DepositSlip, PassOrFail, Proposal, Signer, Vault,
};
use crate::token::{Mint, TokenAccount};

verus! {

/// What the creation of a branch reads: where the branch is to be kept,
/// and its proposal.
#[derive(Clone, Copy, Debug, PartialEq, Eq)]
pub struct InitializeConditionalExpression {
    pub conditional_expression: Address,
    pub proposal: Account<Proposal>,
    pub initializer: Signer,
    pub system_program: Address,
}

impl InitializeConditionalExpression {
    /// The initializer has signed, and the branch is to be kept at the
    /// address derived from the proposal and the branch's tag.
    pub open spec fn checked(&self, pass_or_fail: PassOrFail, program_id: Address) -> Result<
        (),
        ErrorCode,
    > {
        if !self.initializer.is_signer {
            Err(ErrorCode::Unauthorized)
        } else if !is_derived(
            self.conditional_expression,
            conditional_expression_seeds(self.proposal.key, pass_or_fail),
            program_id@,
        ) {
            Err(ErrorCode::MismatchedReference)
        } else {
            Ok(())
        }
    }

    /// The branch that is created.
    pub open spec fn created(&self, pass_or_fail: PassOrFail) -> ConditionalExpression {
        ConditionalExpression { proposal: self.proposal.key, pass_or_fail }
    }

    pub fn validate(&self, pass_or_fail: PassOrFail, program_id: &Address) -> (r: Result<
        (),
        ErrorCode,
    >)
        ensures
            r == self.checked(pass_or_fail, *program_id),
    {
        if !self.initializer.is_signer {
            return Err(ErrorCode::Unauthorized);
        }
        if !is_conditional_expression_address(
            &self.conditional_expression,
            &self.proposal.key,
            pass_or_fail,
            program_id,
        ) {
            return Err(ErrorCode::MismatchedReference);
        }
        Ok(())
    }

    /// The new branch of the proposal, whatever state the proposal is in.
    pub fn process(&self, pass_or_fail: PassOrFail, program_id: &Address) -> (r: Result<
        ConditionalExpression,
        ErrorCode,
    >)
        ensures
            match self.checked(pass_or_fail, *program_id) {
                Ok(_) => r == Ok::<ConditionalExpression, ErrorCode>(self.created(pass_or_fail)),
                Err(e) => r == Err::<ConditionalExpression, ErrorCode>(e),
            },
    {
        match self.validate(pass_or_fail, program_id) {
            Err(e) => Err(e),
            Ok(_) => Ok(ConditionalExpression { proposal: self.proposal.key, pass_or_fail }),
        }
    }
}

/// A new vault with the two resources that it alone controls.
#[derive(Clone, Copy, Debug, PartialEq, Eq)]
pub struct VaultSetup {
    pub vault: Vault,
    pub vault_underlying_token_account: TokenAccount,
    pub conditional_token_mint: Mint,
}

/// What the creation of a vault reads: where the vault, its custody
/// account and the mint of its claim asset are to be kept, its branch, and
/// the underlying asset.
#[derive(Clone, Copy, Debug, PartialEq, Eq)]
pub struct InitializeVault {
    pub vault: Address,
    pub conditional_expression: Account<ConditionalExpression>,
    pub underlying_token_mint: Account<Mint>,
    pub vault_underlying_token_account: Address,
    pub conditional_token_mint: Address,
    pub initializer: Signer,
    pub token_program: Address,
    pub associated_token_program: Address,
    pub system_program: Address,
}

impl InitializeVault {
    /// The initializer has signed, the vault is to be kept at the address
    /// derived from its branch and the underlying asset, its custody
    /// account at the vault's token account for that asset, and the claim
    /// asset is another asset than the underlying one.
    pub open spec fn checked(&self, program_id: Address) -> Result<(), ErrorCode> {
        if !self.initializer.is_signer {
            Err(ErrorCode::Unauthorized)
        } else if !is_derived(
            self.vault,
            vault_seeds(self.conditional_expression.key, self.underlying_token_mint.key),
            program_id@,
        ) {
            Err(ErrorCode::MismatchedReference)
        } else if !is_derived(
            self.vault_underlying_token_account,
            associated_token_seeds(self.vault, self.underlying_token_mint.key),
            associated_token_program_id(),
        ) {
            Err(ErrorCode::MismatchedReference)
        } else if self.conditional_token_mint == self.underlying_token_mint.key {
            Err(ErrorCode::MismatchedReference)
        } else {
            Ok(())
        }
    }

    /// The vault that is created, with an empty custody account and a
    /// claim asset of which nothing is in circulation. The claim asset has
    /// the decimals of the underlying one, so that one unit of claim
    /// stands for one unit of the underlying asset.
    pub open spec fn created(&self) -> VaultSetup {
        VaultSetup {
            vault: Vault {
                conditional_expression: self.conditional_expression.key,
                underlying_token_mint: self.underlying_token_mint.key,
                underlying_token_account: self.vault_underlying_token_account,
                conditional_token_mint: self.conditional_token_mint,
            },
            vault_underlying_token_account: TokenAccount {
                mint: self.underlying_token_mint.key,
                owner: self.vault,
                amount: 0,
            },
            conditional_token_mint: Mint {
                mint_authority: Some(self.vault),
                supply: 0,
                decimals: self.underlying_token_mint.data.decimals,
                freeze_authority: Some(self.vault),
            },
        }
    }

    pub fn validate(&self, program_id: &Address) -> (r: Result<(), ErrorCode>)
        ensures
            r == self.checked(*program_id),
    {
        if !self.initializer.is_signer {
            return Err(ErrorCode::Unauthorized);
        }
        if !is_vault_address(
            &self.vault,
            &self.conditional_expression.key,
            &self.underlying_token_mint.key,
            program_id,
        ) {
            return Err(ErrorCode::MismatchedReference);
        }
        if !is_associated_token_address(
            &self.vault_underlying_token_account,
            &self.vault,
            &self.underlying_token_mint.key,
        ) {
            return Err(ErrorCode::MismatchedReference);
        }
        if self.conditional_token_mint == self.underlying_token_mint.key {
            return Err(ErrorCode::MismatchedReference);
        }
        Ok(())
    }

    /// The new vault, its custody account and the mint of its claim asset.
    pub fn process(&self, program_id: &Address) -> (r: Result<VaultSetup, ErrorCode>)
        ensures
            match self.checked(*program_id) {
                Ok(_) => r == Ok::<VaultSetup, ErrorCode>(self.created()),
                Err(e) => r == Err::<VaultSetup, ErrorCode>(e),
            },
    {
        match self.validate(program_id) {
            Err(e) => Err(e),
            Ok(_) => Ok(
                VaultSetup {
                    vault: Vault {
                        conditional_expression: self.conditional_expression.key,
                        underlying_token_mint: self.underlying_token_mint.key,
                        underlying_token_account: self.vault_underlying_token_account,
                        conditional_token_mint: self.conditional_token_mint,
                    },
                    vault_underlying_token_account: TokenAccount::new(
                        self.underlying_token_mint.key,
                        self.vault,
                    ),
                    conditional_token_mint: Mint::new(
                        self.vault,
                        self.underlying_token_mint.data.decimals,
                    ),
                },
            ),
        }
    }
}

/// What the creation of a deposit slip reads: where the slip is to be
/// kept, and its vault.
#[derive(Clone, Copy, Debug, PartialEq, Eq)]
pub struct InitializeDepositSlip {
    pub deposit_slip: Address,
    pub vault: Account<Vault>,
    pub initializer: Signer,
    pub system_program: Address,
}

impl InitializeDepositSlip {
    /// The initializer has signed, and the slip is to be kept at the
    /// address derived from the vault and the depositor.
    pub open spec fn checked(&self, user: Address, program_id: Address) -> Result<(), ErrorCode> {
        if !self.initializer.is_signer {
            Err(ErrorCode::Unauthorized)
        } else if !is_derived(
            self.deposit_slip,
            deposit_slip_seeds(self.vault.key, user),
            program_id@,
        ) {
            Err(ErrorCode::MismatchedReference)
        } else {
            Ok(())
        }
    }

    /// The slip that is created: it holds nothing yet.
    pub open spec fn created(&self, user: Address) -> DepositSlip {
        DepositSlip { vault: self.vault.key, user, deposited_amount: 0 }
    }

    pub fn validate(&self, user: &Address, program_id: &Address) -> (r: Result<(), ErrorCode>)
        ensures
            r == self.checked(*user, *program_id),
    {
        if !self.initializer.is_signer {
            return Err(ErrorCode::Unauthorized);
        }
        if !is_deposit_slip_address(&self.deposit_slip, &self.vault.key, user, program_id) {
            return Err(ErrorCode::MismatchedReference);
        }
        Ok(())
    }

    /// The new slip of `user` on the vault.
    pub fn process(&self, user: &Address, program_id: &Address) -> (r: Result<
        DepositSlip,
        ErrorCode,
    >)
        ensures
            match self.checked(*user, *program_id) {
                Ok(_) => r == Ok::<DepositSlip, ErrorCode>(self.created(*user)),
                Err(e) => r == Err::<DepositSlip, ErrorCode>(e),
            },
    {
        match self.validate(user, program_id) {
            Err(e) => Err(e),
            Ok(_) => Ok(DepositSlip { vault: self.vault.key, user: *user, deposited_amount: 0 }),
        }
    }
}

} // verus!
