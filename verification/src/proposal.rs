//! The life of a proposal: a member creates it, and it is resolved once.

use vstd::prelude::*;
use crate::address::Address;
use crate::error::ErrorCode;
use crate::pda::{is_derived, is_meta_dao_address, meta_dao_seeds};
use crate::registry::MetaDAO;
use crate::state::{Account, PassOrFail, Proposal, ProposalState, Signer};

verus! {

/// What the creation of a proposal reads: where the proposal is to be
/// kept, the registry, and who creates it.
#[derive(Debug)]
pub struct InitializeProposal {
    pub proposal: Address,
    pub meta_dao: Account<MetaDAO>,
    pub initializer: Signer,
    pub system_program: Address,
}

impl InitializeProposal {
    /// The registry is the one registry, and the initializer has signed
    /// and is a member of it.
    pub open spec fn checked(&self, program_id: Address) -> Result<(), ErrorCode> {
        if !is_derived(self.meta_dao.key, meta_dao_seeds(), program_id@) {
            Err(ErrorCode::MismatchedReference)
        } else if !self.initializer.is_signer || !self.meta_dao.data.spec_is_member(
            self.initializer.key,
        ) {
            Err(ErrorCode::Unauthorized)
        } else {
            Ok(())
        }
    }

    pub fn validate(&self, program_id: &Address) -> (r: Result<(), ErrorCode>)
        ensures
            r == self.checked(*program_id),
    {
        if !is_meta_dao_address(&self.meta_dao.key, program_id) {
            return Err(ErrorCode::MismatchedReference);
        }
        if !self.initializer.is_signer || !self.meta_dao.data.is_member(&self.initializer.key) {
            return Err(ErrorCode::Unauthorized);
        }
        Ok(())
    }

    /// The new proposal, which is pending.
    pub fn process(&self, program_id: &Address) -> (r: Result<Proposal, ErrorCode>)
        ensures
            match self.checked(*program_id) {
                Ok(_) => r is Ok && r->Ok_0.state == ProposalState::Pending,
                Err(e) => r is Err && r->Err_0 == e,
            },
    {
        match self.validate(program_id) {
            Err(e) => Err(e),
            Ok(_) => Ok(Proposal::new()),
        }
    }
}

/// What the passing of a proposal reads and writes.
#[derive(Clone, Copy, Debug)]
pub struct ExecuteProposal {
    pub proposal: Account<Proposal>,
}

impl ExecuteProposal {
    /// Resolves a pending proposal as passed.
    pub fn process(&mut self) -> (r: Result<(), ErrorCode>)
        ensures
            final(self).proposal.key == old(self).proposal.key,
            match old(self).proposal.data.resolved(PassOrFail::Pass) {
                Ok(p) => r == Ok::<(), ErrorCode>(()) && final(self).proposal.data == p,
                Err(e) => r == Err::<(), ErrorCode>(e) && *final(self) == *old(self),
            },
    {
        self.proposal.data.resolve(PassOrFail::Pass)
    }
}

/// What the failing of a proposal reads and writes.
#[derive(Clone, Copy, Debug)]
pub struct FailProposal {
    pub proposal: Account<Proposal>,
}

impl FailProposal {
    /// Resolves a pending proposal as failed.
    pub fn process(&mut self) -> (r: Result<(), ErrorCode>)
        ensures
            final(self).proposal.key == old(self).proposal.key,
            match old(self).proposal.data.resolved(PassOrFail::Fail) {
                Ok(p) => r == Ok::<(), ErrorCode>(()) && final(self).proposal.data == p,
                Err(e) => r == Err::<(), ErrorCode>(e) && *final(self) == *old(self),
            },
    {
        self.proposal.data.resolve(PassOrFail::Fail)
    }
}

} // verus!
