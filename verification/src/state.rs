//! The records that the engine keeps: proposals, the two branches of each,
//! vaults and deposit slips.

use vstd::prelude::*;
use crate::address::Address;
use crate::error::ErrorCode;

verus! {

/// Where a proposal stands. `Pending` is the only state that can be left.
#[derive(Clone, Copy, Debug, PartialEq, Eq, Structural)]
pub enum ProposalState {
    Pending,
    Passed,
    Failed,
}

/// One of the two outcomes of a proposal. It tags a branch, and it names
/// the outcome when a proposal is resolved.
#[derive(Clone, Copy, Debug, PartialEq, Eq, Structural)]
pub enum PassOrFail {
    Pass,
    Fail,
}

impl PassOrFail {
    /// The terminal state that this outcome leads to.
    pub open spec fn terminal(self) -> ProposalState {
        match self {
            PassOrFail::Pass => ProposalState::Passed,
            PassOrFail::Fail => ProposalState::Failed,
        }
    }

    /// The byte that stands for this branch where an address is derived.
    pub open spec fn spec_seed_byte(self) -> u8 {
        match self {
            PassOrFail::Pass => 0u8,
            PassOrFail::Fail => 1u8,
        }
    }

    #[verifier::when_used_as_spec(spec_seed_byte)]
    pub fn seed_byte(self) -> (b: u8)
        ensures
            b == self.spec_seed_byte(),
    {
        match self {
            PassOrFail::Pass => 0u8,
            PassOrFail::Fail => 1u8,
        }
    }

    pub fn to_state(self) -> (s: ProposalState)
        ensures
            s == self.terminal(),
    {
        match self {
            PassOrFail::Pass => ProposalState::Passed,
            PassOrFail::Fail => ProposalState::Failed,
        }
    }
}

/// A governance decision under consideration.
#[derive(Clone, Copy, Debug, PartialEq, Eq)]
pub struct Proposal {
    pub state: ProposalState,
}

impl Proposal {
    /// What `resolve` makes of a proposal: a pending one takes the outcome,
    /// any other is left alone.
    pub open spec fn resolved(self, outcome: PassOrFail) -> Result<Proposal, ErrorCode> {
        if self.state == ProposalState::Pending {
            Ok(Proposal { state: outcome.terminal() })
        } else {
            Err(ErrorCode::InvalidStateTransition)
        }
    }

    /// A new proposal is pending.
    pub fn new() -> (p: Proposal)
        ensures
            p.state == ProposalState::Pending,
    {
        Proposal { state: ProposalState::Pending }
    }

    pub fn is_pending(&self) -> (r: bool)
        ensures
            r == (self.state == ProposalState::Pending),
    {
        self.state == ProposalState::Pending
    }

    /// Moves a pending proposal to the terminal state of `outcome`.
    pub fn resolve(&mut self, outcome: PassOrFail) -> (r: Result<(), ErrorCode>)
        ensures
            match old(self).resolved(outcome) {
                Ok(p) => r == Ok::<(), ErrorCode>(()) && *final(self) == p,
                Err(e) => r == Err::<(), ErrorCode>(e) && *final(self) == *old(self),
            },
    {
        if self.state == ProposalState::Pending {
            self.state = outcome.to_state();
            Ok(())
        } else {
            Err(ErrorCode::InvalidStateTransition)
        }
    }
}

/// One branch of one proposal. It never changes once it exists.
#[derive(Clone, Copy, Debug, PartialEq, Eq)]
pub struct ConditionalExpression {
    pub proposal: Address,
    pub pass_or_fail: PassOrFail,
}

impl ConditionalExpression {
    /// The branch is the one that the proposal resolved to. No branch
    /// matches a pending proposal.
    pub open spec fn spec_matches(&self, resolution: ProposalState) -> bool {
        resolution == self.pass_or_fail.terminal()
    }

    /// The proposal resolved, and to the other branch.
    pub open spec fn spec_lost(&self, resolution: ProposalState) -> bool {
        resolution != ProposalState::Pending && resolution != self.pass_or_fail.terminal()
    }

    #[verifier::when_used_as_spec(spec_matches)]
    pub fn matches(&self, resolution: ProposalState) -> (r: bool)
        ensures
            r == self.spec_matches(resolution),
            r == (self.pass_or_fail == PassOrFail::Pass && resolution == ProposalState::Passed
                || self.pass_or_fail == PassOrFail::Fail && resolution == ProposalState::Failed),
    {
        match self.pass_or_fail {
            PassOrFail::Pass => resolution == ProposalState::Passed,
            PassOrFail::Fail => resolution == ProposalState::Failed,
        }
    }

    #[verifier::when_used_as_spec(spec_lost)]
    pub fn lost(&self, resolution: ProposalState) -> (r: bool)
        ensures
            r == self.spec_lost(resolution),
            r == (self.pass_or_fail == PassOrFail::Pass && resolution == ProposalState::Failed
                || self.pass_or_fail == PassOrFail::Fail && resolution == ProposalState::Passed),
    {
        match self.pass_or_fail {
            PassOrFail::Pass => resolution == ProposalState::Failed,
            PassOrFail::Fail => resolution == ProposalState::Passed,
        }
    }
}

/// The escrow of one branch of one proposal for one underlying asset.
#[derive(Clone, Copy, Debug, PartialEq, Eq)]
pub struct Vault {
    pub conditional_expression: Address,
    pub underlying_token_mint: Address,
    pub underlying_token_account: Address,
    pub conditional_token_mint: Address,
}

/// What one depositor has put into one vault and not taken back.
#[derive(Clone, Copy, Debug, PartialEq, Eq)]
pub struct DepositSlip {
    pub vault: Address,
    pub user: Address,
    pub deposited_amount: u64,
}

/// A record together with the address at which it is kept.
#[derive(Clone, Copy, Debug, PartialEq, Eq)]
pub struct Account<T> {
    pub key: Address,
    pub data: T,
}

impl<T> Account<T> {
    pub open spec fn with_data(self, data: T) -> Account<T> {
        Account { key: self.key, data }
    }
}

/// A party to an operation, and whether it has signed for it.
#[derive(Clone, Copy, Debug, PartialEq, Eq)]
pub struct Signer {
    pub key: Address,
    pub is_signer: bool,
}

} // verus!
