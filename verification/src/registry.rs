//! The roster of members. Only members propose, and only a member admits
//! another.

use vstd::prelude::*;
use vstd::string::StringSliceAdditionalSpecFns;
use crate::address::Address;
use crate::error::ErrorCode;
use crate::pda::{
    is_derived, is_member_address, is_meta_dao_address, is_treasury_address, member_seeds,
    meta_dao_seeds, treasury_seeds,
};
use crate::state::{Account, Signer};
use crate::token::Mint;

verus! {

/// A participant: its name, its treasury, and the asset that it issues.
#[derive(Clone, Debug)]
pub struct Member {
    pub name: String,
    pub treasury: Address,
    pub token_mint: Address,
}

/// The registry: the addresses of the members.
#[derive(Debug)]
pub struct MetaDAO {
    pub members: Vec<Address>,
}

impl MetaDAO {
    pub open spec fn spec_is_member(&self, identity: Address) -> bool {
        self.members@.contains(identity)
    }

    /// Whether `identity` is on the roster.
    pub fn is_member(&self, identity: &Address) -> (r: bool)
        ensures
            r == self.spec_is_member(*identity),
    {
        let mut i: usize = 0;
        while i < self.members.len()
            invariant
                i <= self.members@.len(),
                forall|j: int| 0 <= j < i ==> self.members@[j] != *identity,
            decreases self.members@.len() - i,
        {
            if self.members[i] == *identity {
                return true;
            }
            i += 1;
        }
        false
    }
}

/// The decimals of the asset that a member issues.
pub const MEMBER_TOKEN_DECIMALS: u8 = 9;

/// What the founding of the registry reads: where the registry is to be
/// kept, and its first member.
#[derive(Debug)]
pub struct InitializeMetaDAO {
    pub meta_dao: Address,
    pub seed_member: Account<Member>,
    pub initializer: Signer,
    pub system_program: Address,
}

impl InitializeMetaDAO {
    /// The initializer has signed, and the registry is to be kept at the
    /// one address that is derived for it.
    pub open spec fn checked(&self, program_id: Address) -> Result<(), ErrorCode> {
        if !self.initializer.is_signer {
            Err(ErrorCode::Unauthorized)
        } else if !is_derived(self.meta_dao, meta_dao_seeds(), program_id@) {
            Err(ErrorCode::MismatchedReference)
        } else {
            Ok(())
        }
    }

    pub fn validate(&self, program_id: &Address) -> (r: Result<(), ErrorCode>)
        ensures
            r == self.checked(*program_id),
    {
        if !self.initializer.is_signer {
            return Err(ErrorCode::Unauthorized);
        }
        if !is_meta_dao_address(&self.meta_dao, program_id) {
            return Err(ErrorCode::MismatchedReference);
        }
        Ok(())
    }

    /// The new registry: the seed member is its only member.
    pub fn process(&self, program_id: &Address) -> (r: Result<MetaDAO, ErrorCode>)
        ensures
            match self.checked(*program_id) {
                Ok(_) => r is Ok && r->Ok_0.members@ == seq![self.seed_member.key],
                Err(e) => r is Err && r->Err_0 == e,
            },
    {
        match self.validate(program_id) {
            Err(e) => Err(e),
            Ok(_) => {
                let mut members: Vec<Address> = Vec::new();
                members.push(self.seed_member.key);
                assert(members@ =~= seq![self.seed_member.key]);
                Ok(MetaDAO { members })
            },
        }
    }
}

/// What the creation of a member reads: where the member, its treasury
/// and its mint are to be kept.
#[derive(Clone, Copy, Debug)]
pub struct InitializeMember {
    pub member: Address,
    pub treasury: Address,
    pub token_mint: Address,
    pub initializer: Signer,
    pub token_program: Address,
    pub system_program: Address,
}

impl InitializeMember {
    /// The initializer has signed, the member is to be kept at the address
    /// derived from its name, and its treasury at the address derived from
    /// the member's.
    pub open spec fn checked(&self, name: Seq<u8>, program_id: Address) -> Result<(), ErrorCode> {
        if !self.initializer.is_signer {
            Err(ErrorCode::Unauthorized)
        } else if !is_derived(self.member, member_seeds(name), program_id@) {
            Err(ErrorCode::MismatchedReference)
        } else if !is_derived(self.treasury, treasury_seeds(self.member), program_id@) {
            Err(ErrorCode::MismatchedReference)
        } else {
            Ok(())
        }
    }

    pub fn validate(&self, name: &str, program_id: &Address) -> (r: Result<(), ErrorCode>)
        ensures
            r == self.checked(name.spec_bytes(), *program_id),
    {
        if !self.initializer.is_signer {
            return Err(ErrorCode::Unauthorized);
        }
        if !is_member_address(&self.member, name, program_id) {
            return Err(ErrorCode::MismatchedReference);
        }
        if !is_treasury_address(&self.treasury, &self.member, program_id) {
            return Err(ErrorCode::MismatchedReference);
        }
        Ok(())
    }

    /// The new member and the mint of its asset, which the member alone
    /// issues and of which nothing is in circulation.
    pub fn process(&self, name: &str, program_id: &Address) -> (r: Result<(Member, Mint), ErrorCode>)
        ensures
            match self.checked(name.spec_bytes(), *program_id) {
                Ok(_) => {
                    &&& r is Ok
                    &&& r->Ok_0.0.name@ == name@
                    &&& r->Ok_0.0.treasury == self.treasury
                    &&& r->Ok_0.0.token_mint == self.token_mint
                    &&& r->Ok_0.1 == (Mint {
                        mint_authority: Some(self.member),
                        supply: 0,
                        decimals: MEMBER_TOKEN_DECIMALS,
                        freeze_authority: Some(self.member),
                    })
                },
                Err(e) => r is Err && r->Err_0 == e,
            },
    {
        match self.validate(name, program_id) {
            Err(e) => Err(e),
            Ok(_) => Ok(
                (
                    Member {
                        name: name.to_owned(),
                        treasury: self.treasury,
                        token_mint: self.token_mint,
                    },
                    Mint::new(self.member, MEMBER_TOKEN_DECIMALS),
                ),
            ),
        }
    }
}

/// What the admission of a member reads and writes: the registry, and the
/// member to admit.
#[derive(Debug)]
pub struct AddMember {
    pub meta_dao: Account<MetaDAO>,
    pub member: Account<Member>,
}

impl AddMember {
    /// A member must have signed for the admission, and nobody is admitted
    /// twice.
    pub open spec fn checked(&self, authorized_by: Signer) -> Result<(), ErrorCode> {
        if !authorized_by.is_signer || !self.meta_dao.data.spec_is_member(authorized_by.key) {
            Err(ErrorCode::Unauthorized)
        } else if self.meta_dao.data.spec_is_member(self.member.key) {
            Err(ErrorCode::AlreadyExists)
        } else {
            Ok(())
        }
    }

    pub fn validate(&self, authorized_by: &Signer) -> (r: Result<(), ErrorCode>)
        ensures
            r == self.checked(*authorized_by),
    {
        if !authorized_by.is_signer || !self.meta_dao.data.is_member(&authorized_by.key) {
            return Err(ErrorCode::Unauthorized);
        }
        if self.meta_dao.data.is_member(&self.member.key) {
            return Err(ErrorCode::AlreadyExists);
        }
        Ok(())
    }

    /// Puts the member at the end of the roster, or refuses and changes
    /// nothing.
    pub fn process(&mut self, authorized_by: &Signer) -> (r: Result<(), ErrorCode>)
        ensures
            r == old(self).checked(*authorized_by),
            final(self).meta_dao.key == old(self).meta_dao.key,
            final(self).member == old(self).member,
            r is Ok ==> final(self).meta_dao.data.members@ == old(self).meta_dao.data.members@.push(
                old(self).member.key,
            ),
            r is Err ==> final(self).meta_dao.data.members@ == old(self).meta_dao.data.members@,
    {
        let accepted = self.validate(authorized_by);
        if accepted.is_err() {
            return accepted;
        }
        self.meta_dao.data.members.push(self.member.key);
        Ok(())
    }
}

} // verus!
