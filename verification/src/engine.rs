//! The engine: the records of all proposals, branches, vaults and slips,
//! and the assets that move between depositors and vaults. Every
//! operation checks what it needs before it writes anything, so that it
//! happens in full or not at all.

use vstd::prelude::*;
use crate::address::Address;
use crate::deposit::MintConditionalTokens;
use crate::error::ErrorCode;
use crate::history::Operation;
use crate::laws::law_step_keeps_invariant;
use crate::model::{Event, State};
use crate::pda::is_deposit_slip_address;
use crate::redeem::{
    RedeemConditionalTokensForUnderlyingTokens, RedeemDepositSlipForUnderlyingTokens,
};
use crate::registry::MetaDAO;
use crate::setup::{InitializeConditionalExpression, InitializeDepositSlip, InitializeVault};
use crate::state::{
    Account, ConditionalExpression, DepositSlip, PassOrFail, Proposal, ProposalState, Signer,
    Vault,
};
use crate::table::Table;
use crate::token::{mint_to, transfer, Mint, TokenAccount};

verus! {

/// An operation went from `before` to `after` as `outcome` says: to the
/// next state, or nowhere, with the error.
pub open spec fn stepped(
    before: State,
    after: State,
    outcome: Result<State, ErrorCode>,
    r: Result<(), ErrorCode>,
) -> bool {
    match outcome {
        Ok(next) => r is Ok && after == next,
        Err(e) => r == Err::<(), ErrorCode>(e) && after == before,
    }
}

/// All records of one program: the registry, the proposals with their
/// branches, the vaults with their slips, and the assets with their token
/// accounts; with them, unseen at run time, the payments into the vaults
/// and out of them.
pub struct Engine {
    program_id: Address,
    meta_dao: Account<MetaDAO>,
    proposals: Table<Proposal>,
    expressions: Table<ConditionalExpression>,
    vaults: Table<Vault>,
    slips: Table<DepositSlip>,
    mints: Table<Mint>,
    tokens: Table<TokenAccount>,
    log: Ghost<Seq<Event>>,
}

impl View for Engine {
    type V = State;

    closed spec fn view(&self) -> State {
        State {
            program_id: self.program_id,
            meta_dao: self.meta_dao.key,
            roster: self.meta_dao.data.members@,
            proposals: self.proposals@,
            expressions: self.expressions@,
            vaults: self.vaults@,
            slips: self.slips@,
            mints: self.mints@,
            tokens: self.tokens@,
            token_accounts: self.tokens.keys(),
            deposit_slips: self.slips.keys(),
            log: self.log@,
        }
    }
}

impl Engine {
    /// At every address at most one record of a kind is kept.
    pub closed spec fn wf(&self) -> bool {
        &&& self.proposals.wf()
        &&& self.expressions.wf()
        &&& self.vaults.wf()
        &&& self.slips.wf()
        &&& self.mints.wf()
        &&& self.tokens.wf()
    }

    /// An engine without records, for the program `program_id` and with
    /// the registry `meta_dao`.
    pub fn new(program_id: Address, meta_dao: Account<MetaDAO>) -> (engine: Engine)
        ensures
            engine.wf(),
            engine@.is_initial(),
            engine@.inv(),
            engine@ == (State {
                program_id,
                meta_dao: meta_dao.key,
                roster: meta_dao.data.members@,
                proposals: Map::empty(),
                expressions: Map::empty(),
                vaults: Map::empty(),
                slips: Map::empty(),
                mints: Map::empty(),
                tokens: Map::empty(),
                token_accounts: Seq::empty(),
                deposit_slips: Seq::empty(),
                log: Seq::empty(),
            }),
    {
        Engine {
            program_id,
            meta_dao,
            proposals: Table::new(),
            expressions: Table::new(),
            vaults: Table::new(),
            slips: Table::new(),
            mints: Table::new(),
            tokens: Table::new(),
            log: Ghost(Seq::empty()),
        }
    }

    // ---------------------------------------------------------------
    // What the engine holds

    /// The program that the addresses of the records are derived for.
    pub fn program_id(&self) -> (id: Address)
        ensures
            id == self@.program_id,
    {
        self.program_id
    }

    /// Whether `identity` is a member.
    pub fn is_member(&self, identity: &Address) -> (r: bool)
        ensures
            r == self@.roster.contains(*identity),
    {
        self.meta_dao.data.is_member(identity)
    }

    /// The state of the proposal at `proposal`.
    pub fn get_resolution(&self, proposal: &Address) -> (r: Result<ProposalState, ErrorCode>)
        requires
            self.wf(),
        ensures
            match r {
                Ok(state) => self@.proposals.contains_key(*proposal) && state
                    == self@.proposals[*proposal].state,
                Err(e) => e == ErrorCode::NotFound && !self@.proposals.contains_key(*proposal),
            },
    {
        match self.proposals.get(proposal) {
            Some(p) => Ok(p.state),
            None => Err(ErrorCode::NotFound),
        }
    }

    /// The branch that is kept at `conditional_expression`.
    pub fn conditional_expression(&self, conditional_expression: &Address) -> (r: Option<
        ConditionalExpression,
    >)
        requires
            self.wf(),
        ensures
            match r {
                Some(e) => self@.expressions.contains_key(*conditional_expression) && e
                    == self@.expressions[*conditional_expression],
                None => !self@.expressions.contains_key(*conditional_expression),
            },
    {
        match self.expressions.get(conditional_expression) {
            Some(e) => Some(*e),
            None => None,
        }
    }

    /// The vault that is kept at `vault`.
    pub fn vault(&self, vault: &Address) -> (r: Option<Vault>)
        requires
            self.wf(),
        ensures
            match r {
                Some(v) => self@.vaults.contains_key(*vault) && v == self@.vaults[*vault],
                None => !self@.vaults.contains_key(*vault),
            },
    {
        match self.vaults.get(vault) {
            Some(v) => Some(*v),
            None => None,
        }
    }

    /// What the slip at `deposit_slip` holds.
    pub fn deposited_amount(&self, deposit_slip: &Address) -> (r: Option<u64>)
        requires
            self.wf(),
        ensures
            match r {
                Some(amount) => self@.slips.contains_key(*deposit_slip) && amount
                    == self@.slips[*deposit_slip].deposited_amount,
                None => !self@.slips.contains_key(*deposit_slip),
            },
    {
        match self.slips.get(deposit_slip) {
            Some(s) => Some(s.deposited_amount),
            None => None,
        }
    }

    /// What the token account at `account` holds.
    pub fn balance(&self, account: &Address) -> (r: Option<u64>)
        requires
            self.wf(),
        ensures
            match r {
                Some(amount) => self@.tokens.contains_key(*account) && amount
                    == self@.tokens[*account].amount,
                None => !self@.tokens.contains_key(*account),
            },
    {
        match self.tokens.get(account) {
            Some(t) => Some(t.amount),
            None => None,
        }
    }

    /// How much of the asset at `mint` is in circulation.
    pub fn supply(&self, mint: &Address) -> (r: Option<u64>)
        requires
            self.wf(),
        ensures
            match r {
                Some(amount) => self@.mints.contains_key(*mint) && amount
                    == self@.mints[*mint].supply,
                None => !self@.mints.contains_key(*mint),
            },
    {
        match self.mints.get(mint) {
            Some(m) => Some(m.supply),
            None => None,
        }
    }

    /// What the vault at `vault` holds in custody.
    pub fn custody_balance(&self, vault: &Address) -> (r: Option<u64>)
        requires
            self.wf(),
        ensures
            match r {
                Some(amount) => {
                    &&& self@.vaults.contains_key(*vault)
                    &&& self@.tokens.contains_key(self@.vaults[*vault].underlying_token_account)
                    &&& amount == self@.custody_balance(*vault)
                },
                None => !self@.vaults.contains_key(*vault) || !self@.tokens.contains_key(
                    self@.vaults[*vault].underlying_token_account,
                ),
            },
    {
        match self.vaults.get(vault) {
            Some(v) => self.balance(&v.underlying_token_account),
            None => None,
        }
    }

    fn is_custody(&self, account: &Address) -> (r: bool)
        requires
            self.wf(),
        ensures
            r == self@.is_custody(*account),
    {
        match self.tokens.get(account) {
            None => false,
            Some(t) => match self.vaults.get(&t.owner) {
                None => false,
                Some(v) => v.underlying_token_account == *account,
            },
        }
    }

    fn branch(&self, vault: &Address) -> (r: Option<
        (Account<Vault>, Account<ConditionalExpression>, Account<Proposal>),
    >)
        requires
            self.wf(),
        ensures
            match r {
                Some((v, e, p)) => {
                    &&& self@.branch(*vault) == Some((e.data, p.data.state))
                    &&& v == self@.vault_at(*vault)
                    &&& e == self@.expression_at(v.data.conditional_expression)
                    &&& p == self@.proposal_at(e.data.proposal)
                },
                None => self@.branch(*vault) is None,
            },
    {
        let v = match self.vaults.get(vault) {
            Some(v) => *v,
            None => {
                return None;
            },
        };
        let e = match self.expressions.get(&v.conditional_expression) {
            Some(e) => *e,
            None => {
                return None;
            },
        };
        let p = match self.proposals.get(&e.proposal) {
            Some(p) => *p,
            None => {
                return None;
            },
        };
        Some(
            (
                Account { key: *vault, data: v },
                Account { key: v.conditional_expression, data: e },
                Account { key: e.proposal, data: p },
            ),
        )
    }

    // ---------------------------------------------------------------
    // The registry and the proposals

    /// A member admits `member`.
    pub fn add_member(&mut self, authorized_by: &Signer, member: Address) -> (r: Result<
        (),
        ErrorCode,
    >)
        requires
            old(self).wf(),
        ensures
            final(self).wf(),
            old(self)@.inv() ==> final(self)@.inv(),
            stepped(old(self)@, final(self)@, old(self)@.add_member(*authorized_by, member), r),
    {
        proof {
            if self@.inv() {
                law_step_keeps_invariant(
                    self@,
                    Operation::AddMember { authorized_by: *authorized_by, member },
                );
            }
        }
        if !authorized_by.is_signer || !self.meta_dao.data.is_member(&authorized_by.key) {
            return Err(ErrorCode::Unauthorized);
        }
        if self.meta_dao.data.is_member(&member) {
            return Err(ErrorCode::AlreadyExists);
        }
        self.meta_dao.data.members.push(member);
        Ok(())
    }

    /// A member creates a proposal, which is pending.
    pub fn create_proposal(&mut self, proposal: Address, initializer: &Signer) -> (r: Result<
        (),
        ErrorCode,
    >)
        requires
            old(self).wf(),
        ensures
            final(self).wf(),
            old(self)@.inv() ==> final(self)@.inv(),
            stepped(old(self)@, final(self)@, old(self)@.create_proposal(proposal, *initializer), r),
    {
        proof {
            if self@.inv() {
                law_step_keeps_invariant(
                    self@,
                    Operation::CreateProposal { proposal, initializer: *initializer },
                );
            }
        }
        if !initializer.is_signer || !self.meta_dao.data.is_member(&initializer.key) {
            return Err(ErrorCode::Unauthorized);
        }
        self.proposals.insert(proposal, Proposal::new())
    }

    /// Resolves the proposal at `proposal` as `outcome`. Only a pending
    /// proposal is resolved, so the first resolution stands.
    pub fn resolve(&mut self, proposal: &Address, outcome: PassOrFail) -> (r: Result<(), ErrorCode>)
        requires
            old(self).wf(),
        ensures
            final(self).wf(),
            old(self)@.inv() ==> final(self)@.inv(),
            stepped(old(self)@, final(self)@, old(self)@.resolve(*proposal, outcome), r),
    {
        proof {
            if self@.inv() {
                law_step_keeps_invariant(
                    self@,
                    Operation::Resolve { proposal: *proposal, outcome },
                );
            }
        }
        let mut p = match self.proposals.get(proposal) {
            Some(p) => *p,
            None => {
                return Err(ErrorCode::NotFound);
            },
        };
        match p.resolve(outcome) {
            Err(e) => Err(e),
            Ok(_) => {
                self.proposals.put(*proposal, p);
                Ok(())
            },
        }
    }

    // ---------------------------------------------------------------
    // Branches, vaults and slips

    /// Creates the branch `pass_or_fail` of the proposal at `proposal`.
    /// There is one address for a proposal and a tag, so a branch is
    /// created once.
    pub fn create_conditional_expression(
        &mut self,
        conditional_expression: Address,
        proposal: &Address,
        pass_or_fail: PassOrFail,
        initializer: &Signer,
    ) -> (r: Result<(), ErrorCode>)
        requires
            old(self).wf(),
        ensures
            final(self).wf(),
            old(self)@.inv() ==> final(self)@.inv(),
            stepped(
                old(self)@,
                final(self)@,
                old(self)@.create_conditional_expression(
                    conditional_expression,
                    *proposal,
                    pass_or_fail,
                    *initializer,
                ),
                r,
            ),
    {
        proof {
            if self@.inv() {
                law_step_keeps_invariant(
                    self@,
                    Operation::CreateConditionalExpression {
                        conditional_expression,
                        proposal: *proposal,
                        pass_or_fail,
                        initializer: *initializer,
                    },
                );
            }
        }
        let p = match self.proposals.get(proposal) {
            Some(p) => *p,
            None => {
                return Err(ErrorCode::NotFound);
            },
        };
        let setup = InitializeConditionalExpression {
            conditional_expression,
            proposal: Account { key: *proposal, data: p },
            initializer: *initializer,
            system_program: self.program_id,
        };
        match setup.process(pass_or_fail, &self.program_id) {
            Err(e) => Err(e),
            Ok(expression) => self.expressions.insert(conditional_expression, expression),
        }
    }

    /// Creates the vault of the branch at `conditional_expression` for the
    /// asset at `underlying_token_mint`, with an empty custody account and
    /// a claim asset of which nothing is in circulation. There is one
    /// address for a branch and an asset, so a vault is created once.
    pub fn create_vault(
        &mut self,
        vault: Address,
        conditional_expression: &Address,
        underlying_token_mint: &Address,
        vault_underlying_token_account: Address,
        conditional_token_mint: Address,
        initializer: &Signer,
    ) -> (r: Result<(), ErrorCode>)
        requires
            old(self).wf(),
        ensures
            final(self).wf(),
            old(self)@.inv() ==> final(self)@.inv(),
            stepped(
                old(self)@,
                final(self)@,
                old(self)@.create_vault(
                    vault,
                    *conditional_expression,
                    *underlying_token_mint,
                    vault_underlying_token_account,
                    conditional_token_mint,
                    *initializer,
                ),
                r,
            ),
    {
        proof {
            if self@.inv() {
                law_step_keeps_invariant(
                    self@,
                    Operation::CreateVault {
                        vault,
                        conditional_expression: *conditional_expression,
                        underlying_token_mint: *underlying_token_mint,
                        vault_underlying_token_account,
                        conditional_token_mint,
                        initializer: *initializer,
                    },
                );
            }
        }
        let expression = match self.expressions.get(conditional_expression) {
            Some(e) => *e,
            None => {
                return Err(ErrorCode::NotFound);
            },
        };
        let underlying = match self.mints.get(underlying_token_mint) {
            Some(m) => *m,
            None => {
                return Err(ErrorCode::NotFound);
            },
        };
        let setup = InitializeVault {
            vault,
            conditional_expression: Account { key: *conditional_expression, data: expression },
            underlying_token_mint: Account { key: *underlying_token_mint, data: underlying },
            vault_underlying_token_account,
            conditional_token_mint,
            initializer: *initializer,
            token_program: self.program_id,
            associated_token_program: self.program_id,
            system_program: self.program_id,
        };
        let created = match setup.process(&self.program_id) {
            Err(e) => {
                return Err(e);
            },
            Ok(created) => created,
        };
        if self.vaults.contains(&vault) || self.tokens.contains(&vault_underlying_token_account)
            || self.mints.contains(&conditional_token_mint) {
            return Err(ErrorCode::AlreadyExists);
        }
        self.vaults.put(vault, created.vault);
        self.tokens.put(vault_underlying_token_account, created.vault_underlying_token_account);
        self.mints.put(conditional_token_mint, created.conditional_token_mint);
        Ok(())
    }

    /// Creates an empty slip of `user` on the vault at `vault`.
    pub fn initialize_deposit_slip(
        &mut self,
        deposit_slip: Address,
        vault: &Address,
        user: Address,
        initializer: &Signer,
    ) -> (r: Result<(), ErrorCode>)
        requires
            old(self).wf(),
        ensures
            final(self).wf(),
            old(self)@.inv() ==> final(self)@.inv(),
            stepped(
                old(self)@,
                final(self)@,
                old(self)@.initialize_deposit_slip(deposit_slip, *vault, user, *initializer),
                r,
            ),
    {
        proof {
            if self@.inv() {
                law_step_keeps_invariant(
                    self@,
                    Operation::InitializeDepositSlip {
                        deposit_slip,
                        vault: *vault,
                        user,
                        initializer: *initializer,
                    },
                );
            }
        }
        let v = match self.vaults.get(vault) {
            Some(v) => *v,
            None => {
                return Err(ErrorCode::NotFound);
            },
        };
        let setup = InitializeDepositSlip {
            deposit_slip,
            vault: Account { key: *vault, data: v },
            initializer: *initializer,
            system_program: self.program_id,
        };
        match setup.process(&user, &self.program_id) {
            Err(e) => Err(e),
            Ok(slip) => self.slips.insert(deposit_slip, slip),
        }
    }

    // ---------------------------------------------------------------
    // Deposit

    fn load_deposit(
        &self,
        vault: &Address,
        user: &Signer,
        deposit_slip: &Address,
        user_underlying_token_account: &Address,
        user_conditional_token_account: &Address,
    ) -> (r: Result<MintConditionalTokens, ErrorCode>)
        requires
            self.wf(),
        ensures
            r == self@.load_deposit(
                *vault,
                *user,
                *deposit_slip,
                *user_underlying_token_account,
                *user_conditional_token_account,
            ),
    {
        let v = match self.vaults.get(vault) {
            Some(v) => *v,
            None => {
                return Err(ErrorCode::NotFound);
            },
        };
        let mint = self.mints.get(&v.conditional_token_mint);
        let custody = self.tokens.get(&v.underlying_token_account);
        let user_underlying = self.tokens.get(user_underlying_token_account);
        let user_conditional = self.tokens.get(user_conditional_token_account);
        match (mint, custody, user_underlying, user_conditional) {
            (Some(mint), Some(custody), Some(user_underlying), Some(user_conditional)) => {
                if self.vaults.contains(&user.key) {
                    return Err(ErrorCode::Unauthorized);
                }
                let slip = match self.slips.get(deposit_slip) {
                    Some(slip) => *slip,
                    None => {
                        if !is_deposit_slip_address(
                            deposit_slip,
                            vault,
                            &user.key,
                            &self.program_id,
                        ) {
                            return Err(ErrorCode::MismatchedReference);
                        }
                        DepositSlip { vault: *vault, user: user.key, deposited_amount: 0 }
                    },
                };
                Ok(
                    MintConditionalTokens {
                        vault: Account { key: *vault, data: v },
                        conditional_token_mint: Account {
                            key: v.conditional_token_mint,
                            data: *mint,
                        },
                        vault_underlying_token_account: Account {
                            key: v.underlying_token_account,
                            data: *custody,
                        },
                        user: *user,
                        deposit_slip: Account { key: *deposit_slip, data: slip },
                        user_underlying_token_account: Account {
                            key: *user_underlying_token_account,
                            data: *user_underlying,
                        },
                        user_conditional_token_account: Account {
                            key: *user_conditional_token_account,
                            data: *user_conditional,
                        },
                        token_program: self.program_id,
                    },
                )
            },
            _ => Err(ErrorCode::NotFound),
        }
    }

    /// Deposits `amount` of the underlying asset into the vault at
    /// `vault`: out of the depositor's underlying account into custody,
    /// with the same amount of the claim asset issued to the depositor's
    /// claim account and added to the depositor's slip. A depositor
    /// without a slip gets one.
    pub fn deposit(
        &mut self,
        vault: &Address,
        user: &Signer,
        deposit_slip: &Address,
        user_underlying_token_account: &Address,
        user_conditional_token_account: &Address,
        amount: u64,
    ) -> (r: Result<(), ErrorCode>)
        requires
            old(self).wf(),
        ensures
            final(self).wf(),
            old(self)@.inv() ==> final(self)@.inv(),
            stepped(
                old(self)@,
                final(self)@,
                old(self)@.deposit(
                    *vault,
                    *user,
                    *deposit_slip,
                    *user_underlying_token_account,
                    *user_conditional_token_account,
                    amount,
                ),
                r,
            ),
    {
        proof {
            if self@.inv() {
                law_step_keeps_invariant(
                    self@,
                    Operation::Deposit {
                        vault: *vault,
                        user: *user,
                        deposit_slip: *deposit_slip,
                        user_underlying_token_account: *user_underlying_token_account,
                        user_conditional_token_account: *user_conditional_token_account,
                        amount,
                    },
                );
            }
        }
        let mut records = match self.load_deposit(
            vault,
            user,
            deposit_slip,
            user_underlying_token_account,
            user_conditional_token_account,
        ) {
            Ok(records) => records,
            Err(e) => {
                return Err(e);
            },
        };
        match records.process(amount) {
            Err(e) => Err(e),
            Ok(_) => {
                self.mints.put(
                    records.conditional_token_mint.key,
                    records.conditional_token_mint.data,
                );
                self.tokens.put(
                    records.vault_underlying_token_account.key,
                    records.vault_underlying_token_account.data,
                );
                self.tokens.put(
                    records.user_underlying_token_account.key,
                    records.user_underlying_token_account.data,
                );
                self.tokens.put(
                    records.user_conditional_token_account.key,
                    records.user_conditional_token_account.data,
                );
                self.slips.put(records.deposit_slip.key, records.deposit_slip.data);
                proof {
                    self.log@ = self.log@.push(
                        Event::Deposit { vault: *vault, user: user.key, amount },
                    );
                }
                Ok(())
            },
        }
    }

    // ---------------------------------------------------------------
    // Redemption of claims

    fn load_redeem_claim(
        &self,
        vault: &Address,
        user: &Signer,
        user_conditional_token_account: &Address,
        user_underlying_token_account: &Address,
    ) -> (r: Result<RedeemConditionalTokensForUnderlyingTokens, ErrorCode>)
        requires
            self.wf(),
        ensures
            r == self@.load_redeem_claim(
                *vault,
                *user,
                *user_conditional_token_account,
                *user_underlying_token_account,
            ),
    {
        let (v, expression, proposal) = match self.branch(vault) {
            Some(found) => found,
            None => {
                return Err(ErrorCode::NotFound);
            },
        };
        if !expression.data.matches(proposal.data.state) {
            return Err(ErrorCode::ProposalNotResolvedInFavor);
        }
        let mint = self.mints.get(&v.data.conditional_token_mint);
        let custody = self.tokens.get(&v.data.underlying_token_account);
        let user_conditional = self.tokens.get(user_conditional_token_account);
        let user_underlying = self.tokens.get(user_underlying_token_account);
        match (mint, custody, user_conditional, user_underlying) {
            (Some(mint), Some(custody), Some(user_conditional), Some(user_underlying)) => {
                if self.vaults.contains(&user.key) {
                    return Err(ErrorCode::Unauthorized);
                }
                Ok(
                    RedeemConditionalTokensForUnderlyingTokens {
                        vault: v,
                        conditional_token_mint: Account {
                            key: v.data.conditional_token_mint,
                            data: *mint,
                        },
                        conditional_expression: expression,
                        proposal,
                        vault_underlying_token_account: Account {
                            key: v.data.underlying_token_account,
                            data: *custody,
                        },
                        user: *user,
                        user_conditional_token_account: Account {
                            key: *user_conditional_token_account,
                            data: *user_conditional,
                        },
                        user_underlying_token_account: Account {
                            key: *user_underlying_token_account,
                            data: *user_underlying,
                        },
                        token_program: self.program_id,
                    },
                )
            },
            _ => Err(ErrorCode::NotFound),
        }
    }

    /// Redeems `amount` of claims on the vault at `vault`, once the
    /// proposal has resolved to the vault's branch: the claims are
    /// destroyed, and the same amount of the underlying asset leaves
    /// custody for the redeemer. Who holds the claims redeems them; no slip
    /// is asked for.
    pub fn redeem_claim(
        &mut self,
        vault: &Address,
        user: &Signer,
        user_conditional_token_account: &Address,
        user_underlying_token_account: &Address,
        amount: u64,
    ) -> (r: Result<(), ErrorCode>)
        requires
            old(self).wf(),
        ensures
            final(self).wf(),
            old(self)@.inv() ==> final(self)@.inv(),
            stepped(
                old(self)@,
                final(self)@,
                old(self)@.redeem_claim(
                    *vault,
                    *user,
                    *user_conditional_token_account,
                    *user_underlying_token_account,
                    amount,
                ),
                r,
            ),
    {
        proof {
            if self@.inv() {
                law_step_keeps_invariant(
                    self@,
                    Operation::RedeemClaim {
                        vault: *vault,
                        user: *user,
                        user_conditional_token_account: *user_conditional_token_account,
                        user_underlying_token_account: *user_underlying_token_account,
                        amount,
                    },
                );
            }
        }
        let mut records = match self.load_redeem_claim(
            vault,
            user,
            user_conditional_token_account,
            user_underlying_token_account,
        ) {
            Ok(records) => records,
            Err(e) => {
                return Err(e);
            },
        };
        match records.process(amount) {
            Err(e) => Err(e),
            Ok(_) => {
                self.mints.put(
                    records.conditional_token_mint.key,
                    records.conditional_token_mint.data,
                );
                self.tokens.put(
                    records.vault_underlying_token_account.key,
                    records.vault_underlying_token_account.data,
                );
                self.tokens.put(
                    records.user_underlying_token_account.key,
                    records.user_underlying_token_account.data,
                );
                self.tokens.put(
                    records.user_conditional_token_account.key,
                    records.user_conditional_token_account.data,
                );
                proof {
                    self.log@ = self.log@.push(
                        Event::RedeemClaim { vault: *vault, user: user.key, amount },
                    );
                }
                Ok(())
            },
        }
    }

    // ---------------------------------------------------------------
    // Redemption of a deposit slip

    fn load_redeem_deposit(
        &self,
        vault: &Address,
        user: &Signer,
        deposit_slip: &Address,
        user_underlying_token_account: &Address,
    ) -> (r: Result<RedeemDepositSlipForUnderlyingTokens, ErrorCode>)
        requires
            self.wf(),
        ensures
            r == self@.load_redeem_deposit(
                *vault,
                *user,
                *deposit_slip,
                *user_underlying_token_account,
            ),
    {
        let (v, expression, proposal) = match self.branch(vault) {
            Some(found) => found,
            None => {
                return Err(ErrorCode::NotFound);
            },
        };
        if !expression.data.lost(proposal.data.state) {
            return Err(ErrorCode::ProposalNotResolvedAgainst);
        }
        let slip = self.slips.get(deposit_slip);
        let custody = self.tokens.get(&v.data.underlying_token_account);
        let user_underlying = self.tokens.get(user_underlying_token_account);
        match (slip, custody, user_underlying) {
            (Some(slip), Some(custody), Some(user_underlying)) => {
                if self.vaults.contains(&user.key) {
                    return Err(ErrorCode::Unauthorized);
                }
                Ok(
                    RedeemDepositSlipForUnderlyingTokens {
                        vault: v,
                        conditional_expression: expression,
                        proposal,
                        vault_underlying_token_account: Account {
                            key: v.data.underlying_token_account,
                            data: *custody,
                        },
                        user: *user,
                        user_deposit_slip: Account { key: *deposit_slip, data: *slip },
                        user_underlying_token_account: Account {
                            key: *user_underlying_token_account,
                            data: *user_underlying,
                        },
                        token_program: self.program_id,
                    },
                )
            },
            _ => Err(ErrorCode::NotFound),
        }
    }

    /// Redeems the slip at `deposit_slip` on the vault at `vault`, once
    /// the proposal has resolved to the other branch: all that the slip
    /// holds leaves custody for the depositor, and the slip holds nothing
    /// afterwards. Returns what was paid.
    pub fn redeem_deposit(
        &mut self,
        vault: &Address,
        user: &Signer,
        deposit_slip: &Address,
        user_underlying_token_account: &Address,
    ) -> (r: Result<u64, ErrorCode>)
        requires
            old(self).wf(),
        ensures
            final(self).wf(),
            old(self)@.inv() ==> final(self)@.inv(),
            match old(self)@.redeem_deposit(
                *vault,
                *user,
                *deposit_slip,
                *user_underlying_token_account,
            ) {
                Ok((next, paid)) => r == Ok::<u64, ErrorCode>(paid) && final(self)@ == next,
                Err(e) => r == Err::<u64, ErrorCode>(e) && final(self)@ == old(self)@,
            },
    {
        proof {
            if self@.inv() {
                law_step_keeps_invariant(
                    self@,
                    Operation::RedeemDeposit {
                        vault: *vault,
                        user: *user,
                        deposit_slip: *deposit_slip,
                        user_underlying_token_account: *user_underlying_token_account,
                    },
                );
            }
        }
        let mut records = match self.load_redeem_deposit(
            vault,
            user,
            deposit_slip,
            user_underlying_token_account,
        ) {
            Ok(records) => records,
            Err(e) => {
                return Err(e);
            },
        };
        match records.process() {
            Err(e) => Err(e),
            Ok(paid) => {
                self.tokens.put(
                    records.vault_underlying_token_account.key,
                    records.vault_underlying_token_account.data,
                );
                self.tokens.put(
                    records.user_underlying_token_account.key,
                    records.user_underlying_token_account.data,
                );
                self.slips.put(records.user_deposit_slip.key, records.user_deposit_slip.data);
                proof {
                    self.log@ = self.log@.push(
                        Event::RedeemDeposit { vault: *vault, user: user.key, amount: paid },
                    );
                }
                Ok(paid)
            },
        }
    }

    // ---------------------------------------------------------------
    // The custodian of the assets

    /// Creates an asset that `authority` issues.
    pub fn create_mint(&mut self, mint: Address, authority: Address, decimals: u8) -> (r: Result<
        (),
        ErrorCode,
    >)
        requires
            old(self).wf(),
        ensures
            final(self).wf(),
            old(self)@.inv() ==> final(self)@.inv(),
            stepped(old(self)@, final(self)@, old(self)@.create_mint(mint, authority, decimals), r),
    {
        proof {
            if self@.inv() {
                law_step_keeps_invariant(
                    self@,
                    Operation::CreateMint { mint, authority, decimals },
                );
            }
        }
        self.mints.insert(mint, Mint::new(authority, decimals))
    }

    /// Creates an empty holding of the asset at `mint` for `owner`.
    pub fn create_token_account(&mut self, account: Address, mint: &Address, owner: Address) -> (r:
        Result<(), ErrorCode>)
        requires
            old(self).wf(),
        ensures
            final(self).wf(),
            old(self)@.inv() ==> final(self)@.inv(),
            stepped(
                old(self)@,
                final(self)@,
                old(self)@.create_token_account(account, *mint, owner),
                r,
            ),
    {
        proof {
            if self@.inv() {
                law_step_keeps_invariant(
                    self@,
                    Operation::CreateTokenAccount { account, mint: *mint, owner },
                );
            }
        }
        if !self.mints.contains(mint) {
            return Err(ErrorCode::NotFound);
        }
        self.tokens.insert(account, TokenAccount::new(*mint, owner))
    }

    /// Issues `amount` of the asset at `mint` into the holding at `to`.
    pub fn mint_to(&mut self, mint: &Address, to: &Address, authority: &Signer, amount: u64) -> (r:
        Result<(), ErrorCode>)
        requires
            old(self).wf(),
        ensures
            final(self).wf(),
            old(self)@.inv() ==> final(self)@.inv(),
            stepped(
                old(self)@,
                final(self)@,
                old(self)@.mint_to(*mint, *to, *authority, amount),
                r,
            ),
    {
        proof {
            if self@.inv() {
                law_step_keeps_invariant(
                    self@,
                    Operation::MintTo { mint: *mint, to: *to, authority: *authority, amount },
                );
            }
        }
        let (m, t) = match (self.mints.get(mint), self.tokens.get(to)) {
            (Some(m), Some(t)) => (*m, *t),
            _ => {
                return Err(ErrorCode::NotFound);
            },
        };
        if !authority.is_signer || self.vaults.contains(&authority.key) || self.is_custody(to) {
            return Err(ErrorCode::Unauthorized);
        }
        match mint_to(&Account { key: *mint, data: m }, t, &authority.key, amount) {
            Err(e) => Err(e),
            Ok((m, t)) => {
                self.mints.put(*mint, m);
                self.tokens.put(*to, t);
                Ok(())
            },
        }
    }

    /// Moves `amount` from the holding at `from` to the holding at `to`.
    pub fn transfer(&mut self, from: &Address, to: &Address, authority: &Signer, amount: u64) -> (r:
        Result<(), ErrorCode>)
        requires
            old(self).wf(),
        ensures
            final(self).wf(),
            old(self)@.inv() ==> final(self)@.inv(),
            stepped(
                old(self)@,
                final(self)@,
                old(self)@.transfer(*from, *to, *authority, amount),
                r,
            ),
    {
        proof {
            if self@.inv() {
                law_step_keeps_invariant(
                    self@,
                    Operation::Transfer { from: *from, to: *to, authority: *authority, amount },
                );
            }
        }
        let (f, t) = match (self.tokens.get(from), self.tokens.get(to)) {
            (Some(f), Some(t)) => (*f, *t),
            _ => {
                return Err(ErrorCode::NotFound);
            },
        };
        if !authority.is_signer || self.vaults.contains(&authority.key) || self.is_custody(to) {
            return Err(ErrorCode::Unauthorized);
        }
        if *from == *to {
            return Err(ErrorCode::MismatchedReference);
        }
        match transfer(f, t, &authority.key, amount) {
            Err(e) => Err(e),
            Ok((f, t)) => {
                self.tokens.put(*from, f);
                self.tokens.put(*to, t);
                Ok(())
            },
        }
    }
}

} // verus!
