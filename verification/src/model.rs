//! The engine as mathematics: its state as maps from address to record,
//! and each operation as a function from a state and the operation's
//! arguments to the next state or to an error.

use vstd::prelude::*;
use crate::address::Address;
use crate::deposit::MintConditionalTokens;
use crate::error::ErrorCode;
use crate::pda::{deposit_slip_seeds, is_derived};
use crate::redeem::{
    RedeemConditionalTokensForUnderlyingTokens, RedeemDepositSlipForUnderlyingTokens,
};
use crate::setup::{InitializeConditionalExpression, InitializeDepositSlip, InitializeVault};
use crate::state::{
    Account, ConditionalExpression, DepositSlip, PassOrFail, Proposal, ProposalState, Signer,
    Vault,
};
use crate::token::{minted, transferred, Mint, TokenAccount};

verus! {

/// A payment into a vault or out of it.
pub enum Event {
    Deposit { vault: Address, user: Address, amount: u64 },
    RedeemClaim { vault: Address, user: Address, amount: u64 },
    RedeemDeposit { vault: Address, user: Address, amount: u64 },
}

/// All that was ever deposited into `vault`.
pub open spec fn deposits(log: Seq<Event>, vault: Address) -> nat
    decreases log.len(),
{
    if log.len() == 0 {
        0
    } else {
        deposits(log.drop_last(), vault) + match log.last() {
            Event::Deposit { vault: v, amount, .. } => if v == vault {
                amount as nat
            } else {
                0
            },
            _ => 0,
        }
    }
}

/// All that `vault` ever paid for claims.
pub open spec fn claim_payouts(log: Seq<Event>, vault: Address) -> nat
    decreases log.len(),
{
    if log.len() == 0 {
        0
    } else {
        claim_payouts(log.drop_last(), vault) + match log.last() {
            Event::RedeemClaim { vault: v, amount, .. } => if v == vault {
                amount as nat
            } else {
                0
            },
            _ => 0,
        }
    }
}

/// All that `vault` ever paid for deposit slips.
pub open spec fn slip_payouts(log: Seq<Event>, vault: Address) -> nat
    decreases log.len(),
{
    if log.len() == 0 {
        0
    } else {
        slip_payouts(log.drop_last(), vault) + match log.last() {
            Event::RedeemDeposit { vault: v, amount, .. } => if v == vault {
                amount as nat
            } else {
                0
            },
            _ => 0,
        }
    }
}

/// The vault that an event belongs to.
pub open spec fn event_vault(event: Event) -> Address {
    match event {
        Event::Deposit { vault, .. } => vault,
        Event::RedeemClaim { vault, .. } => vault,
        Event::RedeemDeposit { vault, .. } => vault,
    }
}

/// The state of the engine.
pub struct State {
    /// The program that the addresses of the records are derived for.
    pub program_id: Address,
    /// Where the registry is kept.
    pub meta_dao: Address,
    /// The members, in the order in which they were admitted.
    pub roster: Seq<Address>,
    pub proposals: Map<Address, Proposal>,
    pub expressions: Map<Address, ConditionalExpression>,
    pub vaults: Map<Address, Vault>,
    pub slips: Map<Address, DepositSlip>,
    pub mints: Map<Address, Mint>,
    pub tokens: Map<Address, TokenAccount>,
    /// The addresses of the token accounts, in the order of their
    /// creation.
    pub token_accounts: Seq<Address>,
    /// The addresses of the deposit slips, in the order of their creation.
    pub deposit_slips: Seq<Address>,
    /// The payments into the vaults and out of them, oldest first.
    pub log: Seq<Event>,
}

impl State {
    /// The record that is kept at `key`, with its address.
    pub open spec fn vault_at(self, key: Address) -> Account<Vault> {
        Account { key, data: self.vaults[key] }
    }

    pub open spec fn mint_at(self, key: Address) -> Account<Mint> {
        Account { key, data: self.mints[key] }
    }

    pub open spec fn token_at(self, key: Address) -> Account<TokenAccount> {
        Account { key, data: self.tokens[key] }
    }

    pub open spec fn expression_at(self, key: Address) -> Account<ConditionalExpression> {
        Account { key, data: self.expressions[key] }
    }

    pub open spec fn proposal_at(self, key: Address) -> Account<Proposal> {
        Account { key, data: self.proposals[key] }
    }

    /// `account` is the account in which some vault keeps its custody.
    pub open spec fn is_custody(self, account: Address) -> bool {
        &&& self.tokens.contains_key(account)
        &&& self.vaults.contains_key(self.tokens[account].owner)
        &&& self.vaults[self.tokens[account].owner].underlying_token_account == account
    }

    /// What `vault` holds in custody.
    pub open spec fn custody_balance(self, vault: Address) -> u64 {
        self.tokens[self.vaults[vault].underlying_token_account].amount
    }

    /// The branch of `vault` and the state of its proposal, where the
    /// three records exist.
    pub open spec fn branch(self, vault: Address) -> Option<(ConditionalExpression, ProposalState)> {
        if !self.vaults.contains_key(vault) {
            None
        } else if !self.expressions.contains_key(self.vaults[vault].conditional_expression) {
            None
        } else if !self.proposals.contains_key(
            self.expressions[self.vaults[vault].conditional_expression].proposal,
        ) {
            None
        } else {
            Some(
                (
                    self.expressions[self.vaults[vault].conditional_expression],
                    self.proposals[self.expressions[self.vaults[vault].conditional_expression].proposal].state,
                ),
            )
        }
    }

    /// The proposal of `vault` has resolved to the vault's branch.
    pub open spec fn won(self, vault: Address) -> bool {
        self.branch(vault) matches Some((expression, resolution)) && expression.spec_matches(
            resolution,
        )
    }

    /// The proposal of `vault` has resolved to the other branch.
    pub open spec fn lost(self, vault: Address) -> bool {
        self.branch(vault) matches Some((expression, resolution)) && expression.spec_lost(
            resolution,
        )
    }

    // ---------------------------------------------------------------
    // The registry and the proposals

    /// A member admits `member`: the one who admits has signed and is a
    /// member, and nobody is admitted twice.
    pub open spec fn add_member(self, authorized_by: Signer, member: Address) -> Result<
        State,
        ErrorCode,
    > {
        if !authorized_by.is_signer || !self.roster.contains(authorized_by.key) {
            Err(ErrorCode::Unauthorized)
        } else if self.roster.contains(member) {
            Err(ErrorCode::AlreadyExists)
        } else {
            Ok(State { roster: self.roster.push(member), ..self })
        }
    }

    /// A member creates a proposal at `proposal`: it is pending.
    pub open spec fn create_proposal(self, proposal: Address, initializer: Signer) -> Result<
        State,
        ErrorCode,
    > {
        if !initializer.is_signer || !self.roster.contains(initializer.key) {
            Err(ErrorCode::Unauthorized)
        } else if self.proposals.contains_key(proposal) {
            Err(ErrorCode::AlreadyExists)
        } else {
            Ok(
                State {
                    proposals: self.proposals.insert(
                        proposal,
                        Proposal { state: ProposalState::Pending },
                    ),
                    ..self
                },
            )
        }
    }

    /// The proposal at `proposal` is resolved as `outcome`, if it is
    /// pending.
    pub open spec fn resolve(self, proposal: Address, outcome: PassOrFail) -> Result<
        State,
        ErrorCode,
    > {
        if !self.proposals.contains_key(proposal) {
            Err(ErrorCode::NotFound)
        } else {
            match self.proposals[proposal].resolved(outcome) {
                Err(e) => Err(e),
                Ok(p) => Ok(State { proposals: self.proposals.insert(proposal, p), ..self }),
            }
        }
    }

    // ---------------------------------------------------------------
    // Branches, vaults and slips

    pub open spec fn conditional_expression_setup(
        self,
        conditional_expression: Address,
        proposal: Address,
        initializer: Signer,
    ) -> InitializeConditionalExpression {
        InitializeConditionalExpression {
            conditional_expression,
            proposal: self.proposal_at(proposal),
            initializer,
            system_program: self.program_id,
        }
    }

    /// The branch `pass_or_fail` of the proposal at `proposal` is created
    /// at `conditional_expression`.
    pub open spec fn create_conditional_expression(
        self,
        conditional_expression: Address,
        proposal: Address,
        pass_or_fail: PassOrFail,
        initializer: Signer,
    ) -> Result<State, ErrorCode> {
        let setup = self.conditional_expression_setup(conditional_expression, proposal, initializer);
        if !self.proposals.contains_key(proposal) {
            Err(ErrorCode::NotFound)
        } else if setup.checked(pass_or_fail, self.program_id) is Err {
            Err(setup.checked(pass_or_fail, self.program_id)->Err_0)
        } else if self.expressions.contains_key(conditional_expression) {
            Err(ErrorCode::AlreadyExists)
        } else {
            Ok(
                State {
                    expressions: self.expressions.insert(
                        conditional_expression,
                        setup.created(pass_or_fail),
                    ),
                    ..self
                },
            )
        }
    }

    pub open spec fn vault_setup(
        self,
        vault: Address,
        conditional_expression: Address,
        underlying_token_mint: Address,
        vault_underlying_token_account: Address,
        conditional_token_mint: Address,
        initializer: Signer,
    ) -> InitializeVault {
        InitializeVault {
            vault,
            conditional_expression: self.expression_at(conditional_expression),
            underlying_token_mint: self.mint_at(underlying_token_mint),
            vault_underlying_token_account,
            conditional_token_mint,
            initializer,
            token_program: self.program_id,
            associated_token_program: self.program_id,
            system_program: self.program_id,
        }
    }

    /// The vault of the branch at `conditional_expression` for the asset
    /// at `underlying_token_mint` is created at `vault`, with its custody
    /// account and the mint of its claim asset.
    pub open spec fn create_vault(
        self,
        vault: Address,
        conditional_expression: Address,
        underlying_token_mint: Address,
        vault_underlying_token_account: Address,
        conditional_token_mint: Address,
        initializer: Signer,
    ) -> Result<State, ErrorCode> {
        let setup = self.vault_setup(
            vault,
            conditional_expression,
            underlying_token_mint,
            vault_underlying_token_account,
            conditional_token_mint,
            initializer,
        );
        if !self.expressions.contains_key(conditional_expression) || !self.mints.contains_key(
            underlying_token_mint,
        ) {
            Err(ErrorCode::NotFound)
        } else if setup.checked(self.program_id) is Err {
            Err(setup.checked(self.program_id)->Err_0)
        } else if self.vaults.contains_key(vault) || self.tokens.contains_key(
            vault_underlying_token_account,
        ) || self.mints.contains_key(conditional_token_mint) {
            Err(ErrorCode::AlreadyExists)
        } else {
            Ok(
                State {
                    vaults: self.vaults.insert(vault, setup.created().vault),
                    tokens: self.tokens.insert(
                        vault_underlying_token_account,
                        setup.created().vault_underlying_token_account,
                    ),
                    token_accounts: self.token_accounts.push(vault_underlying_token_account),
                    mints: self.mints.insert(
                        conditional_token_mint,
                        setup.created().conditional_token_mint,
                    ),
                    ..self
                },
            )
        }
    }

    pub open spec fn deposit_slip_setup(
        self,
        deposit_slip: Address,
        vault: Address,
        initializer: Signer,
    ) -> InitializeDepositSlip {
        InitializeDepositSlip {
            deposit_slip,
            vault: self.vault_at(vault),
            initializer,
            system_program: self.program_id,
        }
    }

    /// An empty slip of `user` on the vault at `vault` is created at
    /// `deposit_slip`.
    pub open spec fn initialize_deposit_slip(
        self,
        deposit_slip: Address,
        vault: Address,
        user: Address,
        initializer: Signer,
    ) -> Result<State, ErrorCode> {
        let setup = self.deposit_slip_setup(deposit_slip, vault, initializer);
        if !self.vaults.contains_key(vault) {
            Err(ErrorCode::NotFound)
        } else if setup.checked(user, self.program_id) is Err {
            Err(setup.checked(user, self.program_id)->Err_0)
        } else if self.slips.contains_key(deposit_slip) {
            Err(ErrorCode::AlreadyExists)
        } else {
            Ok(
                State {
                    slips: self.slips.insert(deposit_slip, setup.created(user)),
                    deposit_slips: self.deposit_slips.push(deposit_slip),
                    ..self
                },
            )
        }
    }

    // ---------------------------------------------------------------
    // Deposit

    /// The records of a deposit, as far as they exist. A slip that does
    /// not exist yet is an empty one, at the address derived from the
    /// vault and the depositor. A vault is no depositor.
    pub open spec fn load_deposit(
        self,
        vault: Address,
        user: Signer,
        deposit_slip: Address,
        user_underlying_token_account: Address,
        user_conditional_token_account: Address,
    ) -> Result<MintConditionalTokens, ErrorCode> {
        if !self.vaults.contains_key(vault) {
            Err(ErrorCode::NotFound)
        } else if !self.mints.contains_key(self.vaults[vault].conditional_token_mint)
            || !self.tokens.contains_key(self.vaults[vault].underlying_token_account)
            || !self.tokens.contains_key(user_underlying_token_account)
            || !self.tokens.contains_key(user_conditional_token_account) {
            Err(ErrorCode::NotFound)
        } else if self.vaults.contains_key(user.key) {
            Err(ErrorCode::Unauthorized)
        } else if !self.slips.contains_key(deposit_slip) && !is_derived(
            deposit_slip,
            deposit_slip_seeds(vault, user.key),
            self.program_id@,
        ) {
            Err(ErrorCode::MismatchedReference)
        } else {
            Ok(
                MintConditionalTokens {
                    vault: self.vault_at(vault),
                    conditional_token_mint: self.mint_at(self.vaults[vault].conditional_token_mint),
                    vault_underlying_token_account: self.token_at(
                        self.vaults[vault].underlying_token_account,
                    ),
                    user,
                    deposit_slip: Account {
                        key: deposit_slip,
                        data: if self.slips.contains_key(deposit_slip) {
                            self.slips[deposit_slip]
                        } else {
                            DepositSlip { vault, user: user.key, deposited_amount: 0 }
                        },
                    },
                    user_underlying_token_account: self.token_at(user_underlying_token_account),
                    user_conditional_token_account: self.token_at(user_conditional_token_account),
                    token_program: self.program_id,
                },
            )
        }
    }

    /// The state with the records of a deposit written back, and the
    /// deposit on the log.
    pub open spec fn store_deposit(self, after: MintConditionalTokens, amount: u64) -> State {
        State {
            mints: self.mints.insert(
                after.conditional_token_mint.key,
                after.conditional_token_mint.data,
            ),
            tokens: self.tokens.insert(
                after.vault_underlying_token_account.key,
                after.vault_underlying_token_account.data,
            ).insert(
                after.user_underlying_token_account.key,
                after.user_underlying_token_account.data,
            ).insert(
                after.user_conditional_token_account.key,
                after.user_conditional_token_account.data,
            ),
            slips: self.slips.insert(after.deposit_slip.key, after.deposit_slip.data),
            deposit_slips: if self.slips.contains_key(after.deposit_slip.key) {
                self.deposit_slips
            } else {
                self.deposit_slips.push(after.deposit_slip.key)
            },
            log: self.log.push(
                Event::Deposit { vault: after.vault.key, user: after.user.key, amount },
            ),
            ..self
        }
    }

    /// `user` deposits `amount` into the vault at `vault`.
    pub open spec fn deposit(
        self,
        vault: Address,
        user: Signer,
        deposit_slip: Address,
        user_underlying_token_account: Address,
        user_conditional_token_account: Address,
        amount: u64,
    ) -> Result<State, ErrorCode> {
        match self.load_deposit(
            vault,
            user,
            deposit_slip,
            user_underlying_token_account,
            user_conditional_token_account,
        ) {
            Err(e) => Err(e),
            Ok(records) => match records.checked(amount) {
                Err(e) => Err(e),
                Ok(_) => Ok(self.store_deposit(records.deposited(amount), amount)),
            },
        }
    }

    // ---------------------------------------------------------------
    // Redemption of claims

    /// The records of a redemption of claims, as far as they exist. The
    /// resolution is asked for as soon as the vault is found, before
    /// anything of the redeemer is looked at.
    pub open spec fn load_redeem_claim(
        self,
        vault: Address,
        user: Signer,
        user_conditional_token_account: Address,
        user_underlying_token_account: Address,
    ) -> Result<RedeemConditionalTokensForUnderlyingTokens, ErrorCode> {
        if self.branch(vault) is None {
            Err(ErrorCode::NotFound)
        } else if !self.won(vault) {
            Err(ErrorCode::ProposalNotResolvedInFavor)
        } else if !self.mints.contains_key(self.vaults[vault].conditional_token_mint)
            || !self.tokens.contains_key(self.vaults[vault].underlying_token_account)
            || !self.tokens.contains_key(user_conditional_token_account)
            || !self.tokens.contains_key(user_underlying_token_account) {
            Err(ErrorCode::NotFound)
        } else if self.vaults.contains_key(user.key) {
            Err(ErrorCode::Unauthorized)
        } else {
            Ok(
                RedeemConditionalTokensForUnderlyingTokens {
                    vault: self.vault_at(vault),
                    conditional_token_mint: self.mint_at(self.vaults[vault].conditional_token_mint),
                    conditional_expression: self.expression_at(
                        self.vaults[vault].conditional_expression,
                    ),
                    proposal: self.proposal_at(
                        self.expressions[self.vaults[vault].conditional_expression].proposal,
                    ),
                    vault_underlying_token_account: self.token_at(
                        self.vaults[vault].underlying_token_account,
                    ),
                    user,
                    user_conditional_token_account: self.token_at(user_conditional_token_account),
                    user_underlying_token_account: self.token_at(user_underlying_token_account),
                    token_program: self.program_id,
                },
            )
        }
    }

    /// The state with the records of a redemption of claims written back,
    /// and the redemption on the log.
    pub open spec fn store_redeem_claim(
        self,
        after: RedeemConditionalTokensForUnderlyingTokens,
        amount: u64,
    ) -> State {
        State {
            mints: self.mints.insert(
                after.conditional_token_mint.key,
                after.conditional_token_mint.data,
            ),
            tokens: self.tokens.insert(
                after.vault_underlying_token_account.key,
                after.vault_underlying_token_account.data,
            ).insert(
                after.user_underlying_token_account.key,
                after.user_underlying_token_account.data,
            ).insert(
                after.user_conditional_token_account.key,
                after.user_conditional_token_account.data,
            ),
            log: self.log.push(
                Event::RedeemClaim { vault: after.vault.key, user: after.user.key, amount },
            ),
            ..self
        }
    }

    /// `user` redeems `amount` of claims on the vault at `vault`.
    pub open spec fn redeem_claim(
        self,
        vault: Address,
        user: Signer,
        user_conditional_token_account: Address,
        user_underlying_token_account: Address,
        amount: u64,
    ) -> Result<State, ErrorCode> {
        match self.load_redeem_claim(
            vault,
            user,
            user_conditional_token_account,
            user_underlying_token_account,
        ) {
            Err(e) => Err(e),
            Ok(records) => match records.checked(amount) {
                Err(e) => Err(e),
                Ok(_) => Ok(self.store_redeem_claim(records.redeemed(amount), amount)),
            },
        }
    }

    // ---------------------------------------------------------------
    // Redemption of a deposit slip

    /// The records of a redemption of a deposit slip, as far as they
    /// exist.
    pub open spec fn load_redeem_deposit(
        self,
        vault: Address,
        user: Signer,
        deposit_slip: Address,
        user_underlying_token_account: Address,
    ) -> Result<RedeemDepositSlipForUnderlyingTokens, ErrorCode> {
        if self.branch(vault) is None {
            Err(ErrorCode::NotFound)
        } else if !self.lost(vault) {
            Err(ErrorCode::ProposalNotResolvedAgainst)
        } else if !self.slips.contains_key(deposit_slip) || !self.tokens.contains_key(
            self.vaults[vault].underlying_token_account,
        ) || !self.tokens.contains_key(user_underlying_token_account) {
            Err(ErrorCode::NotFound)
        } else if self.vaults.contains_key(user.key) {
            Err(ErrorCode::Unauthorized)
        } else {
            Ok(
                RedeemDepositSlipForUnderlyingTokens {
                    vault: self.vault_at(vault),
                    conditional_expression: self.expression_at(
                        self.vaults[vault].conditional_expression,
                    ),
                    proposal: self.proposal_at(
                        self.expressions[self.vaults[vault].conditional_expression].proposal,
                    ),
                    vault_underlying_token_account: self.token_at(
                        self.vaults[vault].underlying_token_account,
                    ),
                    user,
                    user_deposit_slip: Account { key: deposit_slip, data: self.slips[deposit_slip] },
                    user_underlying_token_account: self.token_at(user_underlying_token_account),
                    token_program: self.program_id,
                },
            )
        }
    }

    /// The state with the records of a redemption of a slip written back,
    /// and the redemption on the log.
    pub open spec fn store_redeem_deposit(
        self,
        after: RedeemDepositSlipForUnderlyingTokens,
        amount: u64,
    ) -> State {
        State {
            tokens: self.tokens.insert(
                after.vault_underlying_token_account.key,
                after.vault_underlying_token_account.data,
            ).insert(
                after.user_underlying_token_account.key,
                after.user_underlying_token_account.data,
            ),
            slips: self.slips.insert(after.user_deposit_slip.key, after.user_deposit_slip.data),
            log: self.log.push(
                Event::RedeemDeposit { vault: after.vault.key, user: after.user.key, amount },
            ),
            ..self
        }
    }

    /// `user` redeems the slip at `deposit_slip` on the vault at `vault`.
    /// With the next state comes what was paid.
    pub open spec fn redeem_deposit(
        self,
        vault: Address,
        user: Signer,
        deposit_slip: Address,
        user_underlying_token_account: Address,
    ) -> Result<(State, u64), ErrorCode> {
        match self.load_redeem_deposit(vault, user, deposit_slip, user_underlying_token_account) {
            Err(e) => Err(e),
            Ok(records) => match records.checked() {
                Err(e) => Err(e),
                Ok(_) => Ok(
                    (self.store_redeem_deposit(records.redeemed(), records.payout()), records.payout()),
                ),
            },
        }
    }

    // ---------------------------------------------------------------
    // The custodian of the assets

    /// A new asset at `mint`, issued by `authority`.
    pub open spec fn create_mint(self, mint: Address, authority: Address, decimals: u8) -> Result<
        State,
        ErrorCode,
    > {
        if self.mints.contains_key(mint) {
            Err(ErrorCode::AlreadyExists)
        } else {
            Ok(
                State {
                    mints: self.mints.insert(
                        mint,
                        Mint {
                            mint_authority: Some(authority),
                            supply: 0,
                            decimals,
                            freeze_authority: Some(authority),
                        },
                    ),
                    ..self
                },
            )
        }
    }

    /// A new, empty holding of the asset at `mint` for `owner`, at
    /// `account`.
    pub open spec fn create_token_account(self, account: Address, mint: Address, owner: Address) -> Result<
        State,
        ErrorCode,
    > {
        if !self.mints.contains_key(mint) {
            Err(ErrorCode::NotFound)
        } else if self.tokens.contains_key(account) {
            Err(ErrorCode::AlreadyExists)
        } else {
            Ok(
                State {
                    tokens: self.tokens.insert(account, TokenAccount { mint, owner, amount: 0 }),
                    token_accounts: self.token_accounts.push(account),
                    ..self
                },
            )
        }
    }

    /// The issuer of an asset issues `amount` of it into `to`. What a
    /// vault issues and what a vault keeps in custody moves through the
    /// vault's own operations only.
    pub open spec fn mint_to(self, mint: Address, to: Address, authority: Signer, amount: u64) -> Result<
        State,
        ErrorCode,
    > {
        if !self.mints.contains_key(mint) || !self.tokens.contains_key(to) {
            Err(ErrorCode::NotFound)
        } else if !authority.is_signer || self.vaults.contains_key(authority.key)
            || self.is_custody(to) {
            Err(ErrorCode::Unauthorized)
        } else {
            match minted(self.mint_at(mint), self.tokens[to], authority.key, amount) {
                Err(e) => Err(e),
                Ok((m, t)) => Ok(
                    State { mints: self.mints.insert(mint, m), tokens: self.tokens.insert(to, t), ..self },
                ),
            }
        }
    }

    /// The owner of `from` moves `amount` from it to `to`, which is
    /// another account. What a vault keeps in custody moves through the
    /// vault's own operations only.
    pub open spec fn transfer(self, from: Address, to: Address, authority: Signer, amount: u64) -> Result<
        State,
        ErrorCode,
    > {
        if !self.tokens.contains_key(from) || !self.tokens.contains_key(to) {
            Err(ErrorCode::NotFound)
        } else if !authority.is_signer || self.vaults.contains_key(authority.key)
            || self.is_custody(to) {
            Err(ErrorCode::Unauthorized)
        } else if from == to {
            Err(ErrorCode::MismatchedReference)
        } else {
            match transferred(self.tokens[from], self.tokens[to], authority.key, amount) {
                Err(e) => Err(e),
                Ok((f, t)) => Ok(
                    State { tokens: self.tokens.insert(from, f).insert(to, t), ..self },
                ),
            }
        }
    }
}

} // verus!
