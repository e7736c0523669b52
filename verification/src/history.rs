//! The invariant of the engine's state, and the histories of calls that
//! lead from one state to another.

use vstd::prelude::*;
use crate::address::Address;
use crate::error::ErrorCode;
use crate::model::{claim_payouts, deposits, event_vault, slip_payouts, Event, State};
use crate::pda::{conditional_expression_seeds, deposit_slip_seeds, is_derived, vault_seeds};
use crate::state::{PassOrFail, ProposalState, Signer};
use crate::sums::{held, slipped};
use crate::vault::{issues, keeps_custody_in};

verus! {

/// One call of one operation of the engine.
#[allow(inconsistent_fields)]
pub enum Operation {
    AddMember { authorized_by: Signer, member: Address },
    CreateProposal { proposal: Address, initializer: Signer },
    Resolve { proposal: Address, outcome: PassOrFail },
    CreateConditionalExpression {
        conditional_expression: Address,
        proposal: Address,
        pass_or_fail: PassOrFail,
        initializer: Signer,
    },
    CreateVault {
        vault: Address,
        conditional_expression: Address,
        underlying_token_mint: Address,
        vault_underlying_token_account: Address,
        conditional_token_mint: Address,
        initializer: Signer,
    },
    InitializeDepositSlip { deposit_slip: Address, vault: Address, user: Address, initializer: Signer },
    Deposit {
        vault: Address,
        user: Signer,
        deposit_slip: Address,
        user_underlying_token_account: Address,
        user_conditional_token_account: Address,
        amount: u64,
    },
    RedeemClaim {
        vault: Address,
        user: Signer,
        user_conditional_token_account: Address,
        user_underlying_token_account: Address,
        amount: u64,
    },
    RedeemDeposit {
        vault: Address,
        user: Signer,
        deposit_slip: Address,
        user_underlying_token_account: Address,
    },
    CreateMint { mint: Address, authority: Address, decimals: u8 },
    CreateTokenAccount { account: Address, mint: Address, owner: Address },
    MintTo { mint: Address, to: Address, authority: Signer, amount: u64 },
    Transfer { from: Address, to: Address, authority: Signer, amount: u64 },
}

impl State {
    /// A state without records and without payments.
    pub open spec fn is_initial(self) -> bool {
        &&& self.proposals == Map::<Address, crate::state::Proposal>::empty()
        &&& self.expressions == Map::<Address, crate::state::ConditionalExpression>::empty()
        &&& self.vaults == Map::<Address, crate::state::Vault>::empty()
        &&& self.slips == Map::<Address, crate::state::DepositSlip>::empty()
        &&& self.mints == Map::<Address, crate::token::Mint>::empty()
        &&& self.tokens == Map::<Address, crate::token::TokenAccount>::empty()
        &&& self.token_accounts == Seq::<Address>::empty()
        &&& self.deposit_slips == Seq::<Address>::empty()
        &&& self.log == Seq::<Event>::empty()
    }

    /// Every vault has its branch, its custody account, which it owns, and
    /// the mint of its claim asset, which it alone issues.
    pub open spec fn vaults_wired(self) -> bool {
        forall|v: Address| #[trigger]
            self.vaults.contains_key(v) ==> {
                &&& self.expressions.contains_key(self.vaults[v].conditional_expression)
                &&& self.tokens.contains_key(self.vaults[v].underlying_token_account)
                &&& keeps_custody_in(
                    self.vault_at(v),
                    self.token_at(self.vaults[v].underlying_token_account),
                )
                &&& self.mints.contains_key(self.vaults[v].conditional_token_mint)
                &&& issues(self.vault_at(v), self.mint_at(self.vaults[v].conditional_token_mint))
                &&& self.vaults[v].conditional_token_mint != self.vaults[v].underlying_token_mint
            }
    }

    /// Every token account holds an asset that exists, and every slip is
    /// on a vault that exists.
    pub open spec fn holdings_wired(self) -> bool {
        &&& forall|a: Address| #[trigger]
            self.tokens.contains_key(a) ==> self.mints.contains_key(self.tokens[a].mint)
        &&& forall|d: Address| #[trigger]
            self.slips.contains_key(d) ==> self.vaults.contains_key(self.slips[d].vault)
    }

    /// The token accounts and the slips are each listed once.
    pub open spec fn listed(self) -> bool {
        &&& self.token_accounts.no_duplicates()
        &&& forall|a: Address|
            #![trigger self.token_accounts.contains(a)]
            #![trigger self.tokens.contains_key(a)]
            self.token_accounts.contains(a) <==> self.tokens.contains_key(a)
        &&& self.deposit_slips.no_duplicates()
        &&& forall|d: Address|
            #![trigger self.deposit_slips.contains(d)]
            #![trigger self.slips.contains_key(d)]
            self.deposit_slips.contains(d) <==> self.slips.contains_key(d)
    }

    /// What is in circulation of an asset is what the token accounts hold
    /// of it.
    pub open spec fn ledger_balanced(self) -> bool {
        forall|m: Address| #[trigger]
            self.mints.contains_key(m) ==> held(self.tokens, self.token_accounts, m)
                == self.mints[m].supply
    }

    /// What the slips on a vault hold is what was deposited into the vault,
    /// less what it paid for deposit slips.
    pub open spec fn slips_accounted(self) -> bool {
        forall|v: Address| #[trigger]
            self.vaults.contains_key(v) ==> slipped(self.slips, self.deposit_slips, v) == deposits(
                self.log,
                v,
            ) - slip_payouts(self.log, v)
    }

    /// Every branch has its proposal.
    pub open spec fn expressions_wired(self) -> bool {
        forall|e: Address| #[trigger]
            self.expressions.contains_key(e) ==> self.proposals.contains_key(
                self.expressions[e].proposal,
            )
    }

    /// Every payment on the log is one of a vault that exists.
    pub open spec fn log_wired(self) -> bool {
        forall|i: int|
            0 <= i < self.log.len() ==> self.vaults.contains_key(event_vault(#[trigger] self.log[i]))
    }

    /// Conservation: what a vault holds in custody is what was deposited
    /// into it, less what it paid for claims, less what it paid for
    /// deposit slips.
    pub open spec fn conserved(self) -> bool {
        forall|v: Address| #[trigger]
            self.vaults.contains_key(v) ==> self.custody_balance(v) == deposits(self.log, v)
                - claim_payouts(self.log, v) - slip_payouts(self.log, v)
    }

    /// The claims of a vault that are in circulation are what was
    /// deposited into it, less what was redeemed as claims.
    pub open spec fn claims_accounted(self) -> bool {
        forall|v: Address| #[trigger]
            self.vaults.contains_key(v) ==> self.mints[self.vaults[v].conditional_token_mint].supply
                == deposits(self.log, v) - claim_payouts(self.log, v)
    }

    /// A vault has paid for claims only if it won, and for deposit slips
    /// only if it lost.
    pub open spec fn one_way_out(self) -> bool {
        forall|v: Address| #[trigger]
            self.vaults.contains_key(v) ==> {
                &&& claim_payouts(self.log, v) > 0 ==> self.won(v)
                &&& slip_payouts(self.log, v) > 0 ==> self.lost(v)
            }
    }

    /// Every branch, vault and slip is kept at the address that is
    /// derived from what identifies it: the proposal and the tag, the
    /// branch and the asset, the vault and the depositor.
    pub open spec fn keyed(self) -> bool {
        &&& forall|e: Address| #[trigger]
            self.expressions.contains_key(e) ==> is_derived(
                e,
                conditional_expression_seeds(
                    self.expressions[e].proposal,
                    self.expressions[e].pass_or_fail,
                ),
                self.program_id@,
            )
        &&& forall|v: Address| #[trigger]
            self.vaults.contains_key(v) ==> is_derived(
                v,
                vault_seeds(self.vaults[v].conditional_expression, self.vaults[v].underlying_token_mint),
                self.program_id@,
            )
        &&& forall|d: Address| #[trigger]
            self.slips.contains_key(d) ==> is_derived(
                d,
                deposit_slip_seeds(self.slips[d].vault, self.slips[d].user),
                self.program_id@,
            )
    }

    /// The records refer to records that exist, and the payments add up
    /// vault by vault.
    pub open spec fn wired(self) -> bool {
        &&& self.keyed()
        &&& self.vaults_wired()
        &&& self.expressions_wired()
        &&& self.holdings_wired()
        &&& self.listed()
        &&& self.log_wired()
        &&& self.conserved()
        &&& self.claims_accounted()
        &&& self.one_way_out()
    }

    /// What holds of every state that the engine can reach.
    pub open spec fn inv(self) -> bool {
        &&& self.wired()
        &&& self.ledger_balanced()
        &&& self.slips_accounted()
    }

    /// What one call makes of a state: the next state, or the error.
    pub open spec fn apply(self, op: Operation) -> Result<State, ErrorCode> {
        match op {
            Operation::AddMember { authorized_by, member } => self.add_member(authorized_by, member),
            Operation::CreateProposal { proposal, initializer } => self.create_proposal(
                proposal,
                initializer,
            ),
            Operation::Resolve { proposal, outcome } => self.resolve(proposal, outcome),
            Operation::CreateConditionalExpression {
                conditional_expression,
                proposal,
                pass_or_fail,
                initializer,
            } => self.create_conditional_expression(
                conditional_expression,
                proposal,
                pass_or_fail,
                initializer,
            ),
            Operation::CreateVault {
                vault,
                conditional_expression,
                underlying_token_mint,
                vault_underlying_token_account,
                conditional_token_mint,
                initializer,
            } => self.create_vault(
                vault,
                conditional_expression,
                underlying_token_mint,
                vault_underlying_token_account,
                conditional_token_mint,
                initializer,
            ),
            Operation::InitializeDepositSlip {
                deposit_slip,
                vault,
                user,
                initializer,
            } => self.initialize_deposit_slip(deposit_slip, vault, user, initializer),
            Operation::Deposit {
                vault,
                user,
                deposit_slip,
                user_underlying_token_account,
                user_conditional_token_account,
                amount,
            } => self.deposit(
                vault,
                user,
                deposit_slip,
                user_underlying_token_account,
                user_conditional_token_account,
                amount,
            ),
            Operation::RedeemClaim {
                vault,
                user,
                user_conditional_token_account,
                user_underlying_token_account,
                amount,
            } => self.redeem_claim(
                vault,
                user,
                user_conditional_token_account,
                user_underlying_token_account,
                amount,
            ),
            Operation::RedeemDeposit {
                vault,
                user,
                deposit_slip,
                user_underlying_token_account,
            } => match self.redeem_deposit(vault, user, deposit_slip, user_underlying_token_account) {
                Ok((next, _)) => Ok(next),
                Err(e) => Err(e),
            },
            Operation::CreateMint { mint, authority, decimals } => self.create_mint(
                mint,
                authority,
                decimals,
            ),
            Operation::CreateTokenAccount { account, mint, owner } => self.create_token_account(
                account,
                mint,
                owner,
            ),
            Operation::MintTo { mint, to, authority, amount } => self.mint_to(
                mint,
                to,
                authority,
                amount,
            ),
            Operation::Transfer { from, to, authority, amount } => self.transfer(
                from,
                to,
                authority,
                amount,
            ),
        }
    }

    /// The state after the calls of `history`, oldest first. A call that
    /// is refused leaves the state as it is.
    pub open spec fn after(self, history: Seq<Operation>) -> State
        decreases history.len(),
    {
        if history.len() == 0 {
            self
        } else {
            let before = self.after(history.drop_last());
            match before.apply(history.last()) {
                Ok(next) => next,
                Err(_) => before,
            }
        }
    }
}

/// One more payment on the log adds its amount to the sum of its kind for
/// its vault, and nothing else.
pub proof fn lemma_sums_push(log: Seq<Event>, event: Event, vault: Address)
    ensures
        deposits(log.push(event), vault) == deposits(log, vault) + (match event {
            Event::Deposit { vault: v, amount, .. } => if v == vault {
                amount as nat
            } else {
                0
            },
            _ => 0,
        }),
        claim_payouts(log.push(event), vault) == claim_payouts(log, vault) + (match event {
            Event::RedeemClaim { vault: v, amount, .. } => if v == vault {
                amount as nat
            } else {
                0
            },
            _ => 0,
        }),
        slip_payouts(log.push(event), vault) == slip_payouts(log, vault) + (match event {
            Event::RedeemDeposit { vault: v, amount, .. } => if v == vault {
                amount as nat
            } else {
                0
            },
            _ => 0,
        }),
{
    assert(log.push(event).drop_last() =~= log);
    assert(log.push(event).last() == event);
}

/// A vault without payments on the log has all three sums at nothing.
pub proof fn lemma_sums_absent(log: Seq<Event>, vault: Address)
    requires
        forall|i: int| 0 <= i < log.len() ==> event_vault(#[trigger] log[i]) != vault,
    ensures
        deposits(log, vault) == 0,
        claim_payouts(log, vault) == 0,
        slip_payouts(log, vault) == 0,
    decreases log.len(),
{
    if log.len() > 0 {
        let front = log.drop_last();
        assert forall|i: int| 0 <= i < front.len() implies event_vault(#[trigger] front[i])
            != vault by {
            assert(front[i] == log[i]);
        }
        lemma_sums_absent(front, vault);
        assert(event_vault(log[log.len() - 1]) != vault);
    }
}

} // verus!
