use autocrat::address::Address;
use autocrat::error::ErrorCode;
use autocrat::proposal::{ExecuteProposal, FailProposal, InitializeProposal};
use autocrat::pda::find_meta_dao_address;
use autocrat::registry::{AddMember, Member, MetaDAO};
use autocrat::state::{
    Account, ConditionalExpression, PassOrFail, Proposal, ProposalState, Signer,
};
use autocrat::table::Table;
use autocrat::token::{burn, mint_to, transfer, CpiContext, Mint, TokenAccount, Transfer};

fn addr(n: u8) -> Address {
    Address::new([n; 32])
}

#[test]
fn addresses_are_equal_when_all_bytes_are() {
    let a = Address::new([3u8; 32]);
    let mut bytes = [3u8; 32];
    assert_eq!(a, Address::new(bytes));
    bytes[31] = 4;
    assert_ne!(a, Address::new(bytes));
    assert_eq!(a.to_vec(), vec![3u8; 32]);
    assert_eq!(Address::new(bytes).to_vec()[31], 4);
}

#[test]
fn a_new_proposal_is_pending() {
    let p = Proposal::new();
    assert_eq!(p.state, ProposalState::Pending);
    assert!(p.is_pending());
}

#[test]
fn a_pending_proposal_takes_the_outcome() {
    let mut p = Proposal::new();
    assert_eq!(p.resolve(PassOrFail::Pass), Ok(()));
    assert_eq!(p.state, ProposalState::Passed);
    assert!(!p.is_pending());
    assert_eq!(p.resolve(PassOrFail::Fail), Err(ErrorCode::InvalidStateTransition));
    assert_eq!(p.resolve(PassOrFail::Pass), Err(ErrorCode::InvalidStateTransition));
    assert_eq!(p.state, ProposalState::Passed);

    let mut q = Proposal::new();
    assert_eq!(q.resolve(PassOrFail::Fail), Ok(()));
    assert_eq!(q.state, ProposalState::Failed);
    assert_eq!(q.resolve(PassOrFail::Pass), Err(ErrorCode::InvalidStateTransition));
    assert_eq!(q.state, ProposalState::Failed);
}

#[test]
fn outcomes_lead_to_their_terminal_states() {
    assert_eq!(PassOrFail::Pass.to_state(), ProposalState::Passed);
    assert_eq!(PassOrFail::Fail.to_state(), ProposalState::Failed);
    assert_eq!(PassOrFail::Pass.seed_byte(), 0);
    assert_eq!(PassOrFail::Fail.seed_byte(), 1);
}

#[test]
fn a_branch_matches_its_own_resolution_only() {
    let pass = ConditionalExpression { proposal: addr(1), pass_or_fail: PassOrFail::Pass };
    let fail = ConditionalExpression { proposal: addr(1), pass_or_fail: PassOrFail::Fail };
    assert!(pass.matches(ProposalState::Passed));
    assert!(!pass.matches(ProposalState::Failed));
    assert!(!pass.matches(ProposalState::Pending));
    assert!(fail.matches(ProposalState::Failed));
    assert!(!fail.matches(ProposalState::Passed));
    assert!(!fail.matches(ProposalState::Pending));

    assert!(pass.lost(ProposalState::Failed));
    assert!(!pass.lost(ProposalState::Passed));
    assert!(!pass.lost(ProposalState::Pending));
    assert!(fail.lost(ProposalState::Passed));
    assert!(!fail.lost(ProposalState::Failed));
    assert!(!fail.lost(ProposalState::Pending));
}

#[test]
fn execute_and_fail_resolve_once() {
    let mut e = ExecuteProposal { proposal: Account { key: addr(1), data: Proposal::new() } };
    assert_eq!(e.process(), Ok(()));
    assert_eq!(e.proposal.data.state, ProposalState::Passed);
    assert_eq!(e.process(), Err(ErrorCode::InvalidStateTransition));
    let mut f = FailProposal { proposal: e.proposal };
    assert_eq!(f.process(), Err(ErrorCode::InvalidStateTransition));
    assert_eq!(f.proposal.data.state, ProposalState::Passed);
    let mut g = FailProposal { proposal: Account { key: addr(2), data: Proposal::new() } };
    assert_eq!(g.process(), Ok(()));
    assert_eq!(g.proposal.data.state, ProposalState::Failed);
    assert_eq!(g.proposal.key, addr(2));
}

#[test]
fn a_proposal_needs_a_member_and_the_registry() {
    let program = addr(200);
    let registry = find_meta_dao_address(&program).unwrap();
    let member = Signer { key: addr(1), is_signer: true };
    let make = |meta_dao: Address, initializer: Signer| InitializeProposal {
        proposal: addr(60),
        meta_dao: Account { key: meta_dao, data: MetaDAO { members: vec![addr(1)] } },
        initializer,
        system_program: addr(0),
    };
    assert_eq!(make(registry, member).validate(&program), Ok(()));
    assert_eq!(make(registry, member).process(&program).unwrap().state, ProposalState::Pending);
    assert_eq!(
        make(addr(9), member).validate(&program),
        Err(ErrorCode::MismatchedReference)
    );
    assert_eq!(
        make(registry, Signer { key: addr(1), is_signer: false }).validate(&program),
        Err(ErrorCode::Unauthorized)
    );
    assert_eq!(
        make(registry, Signer { key: addr(2), is_signer: true }).process(&program).unwrap_err(),
        ErrorCode::Unauthorized
    );
}

#[test]
fn a_member_admits_a_member_once() {
    let new_member = Member { name: "bob".to_string(), treasury: addr(31), token_mint: addr(32) };
    let mut ctx = AddMember {
        meta_dao: Account { key: addr(9), data: MetaDAO { members: vec![addr(1)] } },
        member: Account { key: addr(30), data: new_member },
    };
    let founder = Signer { key: addr(1), is_signer: true };
    assert!(ctx.meta_dao.data.is_member(&addr(1)));
    assert!(!ctx.meta_dao.data.is_member(&addr(30)));
    assert_eq!(
        ctx.process(&Signer { key: addr(2), is_signer: true }),
        Err(ErrorCode::Unauthorized)
    );
    assert_eq!(
        ctx.process(&Signer { key: addr(1), is_signer: false }),
        Err(ErrorCode::Unauthorized)
    );
    assert_eq!(ctx.meta_dao.data.members, vec![addr(1)]);
    assert_eq!(ctx.process(&founder), Ok(()));
    assert_eq!(ctx.meta_dao.data.members, vec![addr(1), addr(30)]);
    assert_eq!(ctx.process(&founder), Err(ErrorCode::AlreadyExists));
    assert_eq!(ctx.meta_dao.data.members, vec![addr(1), addr(30)]);
}

#[test]
fn a_transfer_moves_the_amount() {
    let from = TokenAccount { mint: addr(1), owner: addr(2), amount: 70 };
    let to = TokenAccount { mint: addr(1), owner: addr(3), amount: 5 };
    let (f, t) = transfer(from, to, &addr(2), 30).unwrap();
    assert_eq!((f.amount, t.amount), (40, 35));
    assert_eq!((f.owner, f.mint, t.owner, t.mint), (addr(2), addr(1), addr(3), addr(1)));
    assert_eq!(transfer(from, to, &addr(3), 30).unwrap_err(), ErrorCode::Unauthorized);
    assert_eq!(transfer(from, to, &addr(2), 71).unwrap_err(), ErrorCode::InsufficientBalance);
    let other = TokenAccount { mint: addr(9), owner: addr(3), amount: 5 };
    assert_eq!(transfer(from, other, &addr(2), 1).unwrap_err(), ErrorCode::MismatchedReference);
    let full = TokenAccount { mint: addr(1), owner: addr(3), amount: u64::MAX - 29 };
    assert_eq!(transfer(from, full, &addr(2), 30).unwrap_err(), ErrorCode::Overflow);
    let (f, t) = transfer(from, full, &addr(2), 29).unwrap();
    assert_eq!((f.amount, t.amount), (41, u64::MAX));
}

#[test]
fn an_issue_adds_to_supply_and_holding() {
    let mint = Account { key: addr(1), data: Mint::new(addr(7), 6) };
    assert_eq!(mint.data.supply, 0);
    assert_eq!(mint.data.decimals, 6);
    assert_eq!(mint.data.mint_authority, Some(addr(7)));
    assert_eq!(mint.data.freeze_authority, Some(addr(7)));
    assert!(mint.data.issued_by(&addr(7)));
    assert!(!mint.data.issued_by(&addr(8)));
    let to = TokenAccount::new(addr(1), addr(3));
    assert_eq!(to.amount, 0);
    let (m, t) = mint_to(&mint, to, &addr(7), 25).unwrap();
    assert_eq!((m.supply, t.amount), (25, 25));
    assert_eq!(mint_to(&mint, to, &addr(8), 25).unwrap_err(), ErrorCode::Unauthorized);
    let other = TokenAccount::new(addr(2), addr(3));
    assert_eq!(mint_to(&mint, other, &addr(7), 25).unwrap_err(), ErrorCode::MismatchedReference);
    let nearly = Account { key: addr(1), data: Mint { supply: u64::MAX, ..mint.data } };
    assert_eq!(mint_to(&nearly, to, &addr(7), 1).unwrap_err(), ErrorCode::Overflow);
    let closed = Account { key: addr(1), data: Mint { mint_authority: None, ..mint.data } };
    assert_eq!(mint_to(&closed, to, &addr(7), 1).unwrap_err(), ErrorCode::Unauthorized);
}

#[test]
fn a_burn_takes_from_supply_and_holding() {
    let mint = Account { key: addr(1), data: Mint { supply: 100, ..Mint::new(addr(7), 6) } };
    let from = TokenAccount { mint: addr(1), owner: addr(3), amount: 60 };
    let (m, f) = burn(&mint, from, &addr(3), 45).unwrap();
    assert_eq!((m.supply, f.amount), (55, 15));
    assert_eq!(burn(&mint, from, &addr(4), 45).unwrap_err(), ErrorCode::Unauthorized);
    assert_eq!(burn(&mint, from, &addr(3), 61).unwrap_err(), ErrorCode::InsufficientBalance);
    let other = TokenAccount { mint: addr(2), owner: addr(3), amount: 60 };
    assert_eq!(burn(&mint, other, &addr(3), 1).unwrap_err(), ErrorCode::MismatchedReference);
}

#[test]
fn a_holding_is_checked_for_owner_then_asset() {
    let t = TokenAccount { mint: addr(1), owner: addr(2), amount: 0 };
    assert_eq!(t.check_held_for(&addr(2), &addr(1)), Ok(()));
    assert_eq!(t.check_held_for(&addr(3), &addr(1)), Err(ErrorCode::Unauthorized));
    assert_eq!(t.check_held_for(&addr(2), &addr(9)), Err(ErrorCode::MismatchedReference));
    assert_eq!(t.check_held_for(&addr(3), &addr(9)), Err(ErrorCode::Unauthorized));
}

#[test]
fn a_call_context_keeps_program_and_accounts() {
    let accounts = Transfer { from: addr(1), to: addr(2), authority: addr(3) };
    let c = CpiContext::new(addr(9), accounts);
    assert_eq!(c.program, addr(9));
    assert_eq!((c.accounts.from, c.accounts.to, c.accounts.authority), (addr(1), addr(2), addr(3)));
}

#[test]
fn a_table_keeps_one_record_per_address() {
    let mut t: Table<u64> = Table::new();
    assert_eq!(t.len(), 0);
    assert!(!t.contains(&addr(1)));
    assert_eq!(t.get(&addr(1)), None);
    assert_eq!(t.set(&addr(1), 5), Err(ErrorCode::NotFound));
    assert_eq!(t.insert(addr(1), 5), Ok(()));
    assert_eq!(t.insert(addr(1), 6), Err(ErrorCode::AlreadyExists));
    assert_eq!(t.get(&addr(1)), Some(&5));
    assert_eq!(t.insert(addr(2), 7), Ok(()));
    assert_eq!(t.set(&addr(1), 8), Ok(()));
    assert_eq!(t.get(&addr(1)), Some(&8));
    assert_eq!(t.get(&addr(2)), Some(&7));
    t.put(addr(2), 9);
    t.put(addr(3), 10);
    assert_eq!(t.get(&addr(2)), Some(&9));
    assert_eq!(t.get(&addr(3)), Some(&10));
    assert_eq!(t.len(), 3);
    assert!(t.contains(&addr(3)));
    assert!(!t.contains(&addr(4)));
}
