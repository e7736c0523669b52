use autocrat::address::Address;
use autocrat::engine::Engine;
use autocrat::error::ErrorCode;
use autocrat::pda::{
    find_associated_token_address, find_conditional_expression_address,
    find_deposit_slip_address, find_vault_address,
};
use autocrat::registry::MetaDAO;
use autocrat::state::{Account, PassOrFail, ProposalState, Signer};

fn key(n: u8) -> Address {
    Address::new([n; 32])
}

fn signer(n: u8) -> Signer {
    Signer { key: key(n), is_signer: true }
}

struct World {
    engine: Engine,
    founder: Signer,
    issuer: Signer,
    underlying: Address,
    proposal: Address,
    pass: Address,
    fail: Address,
    vault: Address,
    custody: Address,
    claim: Address,
    alice: Signer,
    alice_underlying: Address,
    alice_claim: Address,
    alice_slip: Address,
}

/// A registry with one member, a proposal with both branches, a vault on
/// the branch `branch`, and Alice with `funds` of the underlying asset.
fn world(branch: PassOrFail, funds: u64) -> World {
    let program = key(200);
    let founder = signer(1);
    let issuer = signer(2);
    let alice = signer(10);
    let registry = Account { key: key(201), data: MetaDAO { members: vec![founder.key] } };
    let mut engine = Engine::new(program, registry);

    let underlying = key(50);
    assert_eq!(engine.create_mint(underlying, issuer.key, 6), Ok(()));

    let proposal = key(60);
    assert_eq!(engine.create_proposal(proposal, &founder), Ok(()));
    let pass = find_conditional_expression_address(&proposal, PassOrFail::Pass, &program).unwrap();
    let fail = find_conditional_expression_address(&proposal, PassOrFail::Fail, &program).unwrap();
    assert_eq!(
        engine.create_conditional_expression(pass, &proposal, PassOrFail::Pass, &founder),
        Ok(())
    );
    assert_eq!(
        engine.create_conditional_expression(fail, &proposal, PassOrFail::Fail, &founder),
        Ok(())
    );

    let expression = match branch {
        PassOrFail::Pass => pass,
        PassOrFail::Fail => fail,
    };
    let vault = find_vault_address(&expression, &underlying, &program).unwrap();
    let custody = find_associated_token_address(&vault, &underlying).unwrap();
    let claim = key(70);
    assert_eq!(
        engine.create_vault(vault, &expression, &underlying, custody, claim, &founder),
        Ok(())
    );

    let alice_underlying = key(11);
    let alice_claim = key(12);
    assert_eq!(engine.create_token_account(alice_underlying, &underlying, alice.key), Ok(()));
    assert_eq!(engine.create_token_account(alice_claim, &claim, alice.key), Ok(()));
    if funds > 0 {
        assert_eq!(engine.mint_to(&underlying, &alice_underlying, &issuer, funds), Ok(()));
    }
    let alice_slip = find_deposit_slip_address(&vault, &alice.key, &program).unwrap();

    World {
        engine,
        founder,
        issuer,
        underlying,
        proposal,
        pass,
        fail,
        vault,
        custody,
        claim,
        alice,
        alice_underlying,
        alice_claim,
        alice_slip,
    }
}

fn deposit(w: &mut World, amount: u64) -> Result<(), ErrorCode> {
    w.engine.deposit(&w.vault, &w.alice, &w.alice_slip, &w.alice_underlying, &w.alice_claim, amount)
}

fn redeem_claim(w: &mut World, amount: u64) -> Result<(), ErrorCode> {
    w.engine.redeem_claim(&w.vault, &w.alice, &w.alice_claim, &w.alice_underlying, amount)
}

fn redeem_deposit(w: &mut World) -> Result<u64, ErrorCode> {
    w.engine.redeem_deposit(&w.vault, &w.alice, &w.alice_slip, &w.alice_underlying)
}

#[test]
fn deposit_then_pass_then_redeem_claim() {
    let mut w = world(PassOrFail::Pass, 100);
    assert_eq!(deposit(&mut w, 100), Ok(()));
    assert_eq!(w.engine.balance(&w.alice_claim), Some(100));
    assert_eq!(w.engine.deposited_amount(&w.alice_slip), Some(100));
    assert_eq!(w.engine.custody_balance(&w.vault), Some(100));
    assert_eq!(w.engine.balance(&w.alice_underlying), Some(0));

    assert_eq!(w.engine.resolve(&w.proposal, PassOrFail::Pass), Ok(()));
    assert_eq!(redeem_claim(&mut w, 100), Ok(()));
    assert_eq!(w.engine.balance(&w.alice_claim), Some(0));
    assert_eq!(w.engine.balance(&w.alice_underlying), Some(100));
    assert_eq!(w.engine.custody_balance(&w.vault), Some(0));

    assert_eq!(redeem_claim(&mut w, 1), Err(ErrorCode::InsufficientClaimBalance));
}

#[test]
fn deposit_then_fail_then_redeem_deposit() {
    let mut w = world(PassOrFail::Pass, 100);
    assert_eq!(deposit(&mut w, 100), Ok(()));
    assert_eq!(w.engine.resolve(&w.proposal, PassOrFail::Fail), Ok(()));

    assert_eq!(redeem_claim(&mut w, 100), Err(ErrorCode::ProposalNotResolvedInFavor));
    assert_eq!(w.engine.custody_balance(&w.vault), Some(100));

    assert_eq!(redeem_deposit(&mut w), Ok(100));
    assert_eq!(w.engine.balance(&w.alice_underlying), Some(100));
    assert_eq!(w.engine.custody_balance(&w.vault), Some(0));
    assert_eq!(w.engine.deposited_amount(&w.alice_slip), Some(0));

    assert_eq!(redeem_deposit(&mut w), Err(ErrorCode::NotFound));
    assert_eq!(w.engine.balance(&w.alice_underlying), Some(100));
}

#[test]
fn custody_is_deposits_less_payouts() {
    let mut w = world(PassOrFail::Pass, 1000);
    assert_eq!(deposit(&mut w, 300), Ok(()));
    assert_eq!(deposit(&mut w, 200), Ok(()));
    assert_eq!(w.engine.custody_balance(&w.vault), Some(500));
    assert_eq!(w.engine.resolve(&w.proposal, PassOrFail::Pass), Ok(()));
    assert_eq!(redeem_claim(&mut w, 120), Ok(()));
    assert_eq!(w.engine.custody_balance(&w.vault), Some(500 - 120));
    assert_eq!(redeem_claim(&mut w, 80), Ok(()));
    assert_eq!(w.engine.custody_balance(&w.vault), Some(500 - 120 - 80));
    assert_eq!(w.engine.supply(&w.claim), Some(300));
    assert_eq!(w.engine.balance(&w.alice_underlying), Some(700));
}

#[test]
fn deposit_adds_the_amount_everywhere() {
    let mut w = world(PassOrFail::Fail, 50);
    assert_eq!(w.engine.deposited_amount(&w.alice_slip), None);
    assert_eq!(deposit(&mut w, 20), Ok(()));
    assert_eq!(w.engine.balance(&w.alice_claim), Some(20));
    assert_eq!(w.engine.supply(&w.claim), Some(20));
    assert_eq!(w.engine.custody_balance(&w.vault), Some(20));
    assert_eq!(w.engine.balance(&w.custody), Some(20));
    assert_eq!(w.engine.deposited_amount(&w.alice_slip), Some(20));
    assert_eq!(w.engine.balance(&w.alice_underlying), Some(30));
    assert_eq!(deposit(&mut w, 30), Ok(()));
    assert_eq!(w.engine.deposited_amount(&w.alice_slip), Some(50));
    assert_eq!(w.engine.custody_balance(&w.vault), Some(50));
}

#[test]
fn claims_are_not_redeemed_while_pending() {
    let mut w = world(PassOrFail::Pass, 100);
    assert_eq!(deposit(&mut w, 100), Ok(()));
    assert_eq!(w.engine.get_resolution(&w.proposal), Ok(ProposalState::Pending));
    assert_eq!(redeem_claim(&mut w, 100), Err(ErrorCode::ProposalNotResolvedInFavor));
    assert_eq!(redeem_claim(&mut w, 0), Err(ErrorCode::ProposalNotResolvedInFavor));
    assert_eq!(redeem_deposit(&mut w), Err(ErrorCode::ProposalNotResolvedAgainst));
    assert_eq!(w.engine.custody_balance(&w.vault), Some(100));
}

#[test]
fn slips_are_not_redeemed_on_the_winning_branch() {
    let mut w = world(PassOrFail::Fail, 100);
    assert_eq!(deposit(&mut w, 100), Ok(()));
    assert_eq!(w.engine.resolve(&w.proposal, PassOrFail::Fail), Ok(()));
    assert_eq!(redeem_deposit(&mut w), Err(ErrorCode::ProposalNotResolvedAgainst));
    assert_eq!(redeem_claim(&mut w, 100), Ok(()));
    assert_eq!(w.engine.balance(&w.alice_underlying), Some(100));
}

#[test]
fn a_proposal_is_resolved_once() {
    let mut w = world(PassOrFail::Pass, 0);
    assert_eq!(w.engine.resolve(&w.proposal, PassOrFail::Fail), Ok(()));
    assert_eq!(w.engine.get_resolution(&w.proposal), Ok(ProposalState::Failed));
    assert_eq!(
        w.engine.resolve(&w.proposal, PassOrFail::Pass),
        Err(ErrorCode::InvalidStateTransition)
    );
    assert_eq!(
        w.engine.resolve(&w.proposal, PassOrFail::Fail),
        Err(ErrorCode::InvalidStateTransition)
    );
    assert_eq!(w.engine.get_resolution(&w.proposal), Ok(ProposalState::Failed));
    assert_eq!(w.engine.resolve(&key(61), PassOrFail::Pass), Err(ErrorCode::NotFound));
    assert_eq!(w.engine.get_resolution(&key(61)), Err(ErrorCode::NotFound));
}

#[test]
fn claims_are_redeemed_by_whoever_holds_them() {
    let mut w = world(PassOrFail::Pass, 100);
    assert_eq!(deposit(&mut w, 100), Ok(()));
    let bob = signer(20);
    let bob_claim = key(21);
    let bob_underlying = key(22);
    assert_eq!(w.engine.create_token_account(bob_claim, &w.claim, bob.key), Ok(()));
    assert_eq!(w.engine.create_token_account(bob_underlying, &w.underlying, bob.key), Ok(()));
    assert_eq!(w.engine.transfer(&w.alice_claim, &bob_claim, &w.alice, 40), Ok(()));
    assert_eq!(w.engine.resolve(&w.proposal, PassOrFail::Pass), Ok(()));
    assert_eq!(
        w.engine.redeem_claim(&w.vault, &bob, &bob_claim, &bob_underlying, 40),
        Ok(())
    );
    assert_eq!(w.engine.balance(&bob_underlying), Some(40));
    assert_eq!(w.engine.custody_balance(&w.vault), Some(60));
    assert_eq!(redeem_claim(&mut w, 61), Err(ErrorCode::InsufficientClaimBalance));
    assert_eq!(redeem_claim(&mut w, 60), Ok(()));
    assert_eq!(w.engine.custody_balance(&w.vault), Some(0));
}

#[test]
fn deposit_is_refused_without_funds_or_amount() {
    let mut w = world(PassOrFail::Pass, 100);
    assert_eq!(deposit(&mut w, 101), Err(ErrorCode::InsufficientUnderlyingBalance));
    assert_eq!(deposit(&mut w, 0), Err(ErrorCode::InvalidAmount));
    assert_eq!(w.engine.balance(&w.alice_underlying), Some(100));
    assert_eq!(w.engine.custody_balance(&w.vault), Some(0));
    assert_eq!(w.engine.deposited_amount(&w.alice_slip), None);
}

#[test]
fn deposit_is_refused_without_signature() {
    let mut w = world(PassOrFail::Pass, 100);
    let unsigned = Signer { key: w.alice.key, is_signer: false };
    assert_eq!(
        w.engine.deposit(&w.vault, &unsigned, &w.alice_slip, &w.alice_underlying, &w.alice_claim, 10),
        Err(ErrorCode::Unauthorized)
    );
    let mallory = signer(30);
    let mallory_slip = find_deposit_slip_address(&w.vault, &mallory.key, &w.engine.program_id())
        .unwrap();
    assert_eq!(
        w.engine.deposit(&w.vault, &mallory, &mallory_slip, &w.alice_underlying, &w.alice_claim, 10),
        Err(ErrorCode::Unauthorized)
    );
}

#[test]
fn deposit_is_refused_on_a_slip_at_another_address() {
    let mut w = world(PassOrFail::Pass, 100);
    assert_eq!(
        w.engine.deposit(&w.vault, &w.alice, &key(99), &w.alice_underlying, &w.alice_claim, 10),
        Err(ErrorCode::MismatchedReference)
    );
    assert_eq!(
        w.engine.deposit(&w.vault, &w.alice, &w.alice_slip, &w.alice_claim, &w.alice_claim, 10),
        Err(ErrorCode::MismatchedReference)
    );
    assert_eq!(
        w.engine.deposit(&key(98), &w.alice, &w.alice_slip, &w.alice_underlying, &w.alice_claim, 10),
        Err(ErrorCode::NotFound)
    );
}

#[test]
fn deposit_is_refused_when_the_claim_supply_is_full() {
    let mut w = world(PassOrFail::Pass, u64::MAX);
    assert_eq!(deposit(&mut w, u64::MAX), Ok(()));
    assert_eq!(w.engine.resolve(&w.proposal, PassOrFail::Fail), Ok(()));
    assert_eq!(redeem_deposit(&mut w), Ok(u64::MAX));
    assert_eq!(w.engine.supply(&w.claim), Some(u64::MAX));
    assert_eq!(deposit(&mut w, 1), Err(ErrorCode::Overflow));
    assert_eq!(w.engine.balance(&w.alice_underlying), Some(u64::MAX));
}

#[test]
fn a_slip_is_not_redeemed_from_an_empty_custody() {
    let mut w = world(PassOrFail::Pass, 100);
    assert_eq!(deposit(&mut w, 100), Ok(()));
    assert_eq!(w.engine.resolve(&w.proposal, PassOrFail::Fail), Ok(()));
    assert_eq!(redeem_deposit(&mut w), Ok(100));
    assert_eq!(deposit(&mut w, 100), Ok(()));
    assert_eq!(redeem_deposit(&mut w), Ok(100));
    assert_eq!(redeem_deposit(&mut w), Err(ErrorCode::NotFound));
    assert_eq!(w.engine.custody_balance(&w.vault), Some(0));
}

#[test]
fn records_are_created_once() {
    let mut w = world(PassOrFail::Pass, 0);
    let program = w.engine.program_id();
    assert_eq!(w.engine.create_proposal(w.proposal, &w.founder), Err(ErrorCode::AlreadyExists));
    assert_eq!(
        w.engine.create_conditional_expression(w.pass, &w.proposal, PassOrFail::Pass, &w.founder),
        Err(ErrorCode::AlreadyExists)
    );
    assert_eq!(
        w.engine.create_vault(w.vault, &w.pass, &w.underlying, w.custody, key(71), &w.founder),
        Err(ErrorCode::AlreadyExists)
    );
    assert_eq!(w.engine.create_mint(w.underlying, w.issuer.key, 6), Err(ErrorCode::AlreadyExists));
    assert_eq!(
        w.engine.create_token_account(w.alice_claim, &w.claim, w.alice.key),
        Err(ErrorCode::AlreadyExists)
    );
    assert_eq!(
        w.engine.initialize_deposit_slip(w.alice_slip, &w.vault, w.alice.key, &w.founder),
        Ok(())
    );
    assert_eq!(
        w.engine.initialize_deposit_slip(w.alice_slip, &w.vault, w.alice.key, &w.founder),
        Err(ErrorCode::AlreadyExists)
    );
    assert_eq!(w.engine.deposited_amount(&w.alice_slip), Some(0));
    let other = find_vault_address(&w.fail, &w.underlying, &program).unwrap();
    let other_custody = find_associated_token_address(&other, &w.underlying).unwrap();
    assert_eq!(
        w.engine.create_vault(other, &w.fail, &w.underlying, other_custody, key(71), &w.founder),
        Ok(())
    );
    assert_eq!(w.engine.custody_balance(&other), Some(0));
    assert_eq!(w.engine.supply(&key(71)), Some(0));
}

#[test]
fn records_are_created_at_derived_addresses_only() {
    let mut w = world(PassOrFail::Pass, 0);
    let other = key(62);
    assert_eq!(w.engine.create_proposal(other, &w.founder), Ok(()));
    assert_eq!(
        w.engine.create_conditional_expression(key(63), &other, PassOrFail::Pass, &w.founder),
        Err(ErrorCode::MismatchedReference)
    );
    assert_eq!(
        w.engine.create_conditional_expression(w.pass, &other, PassOrFail::Pass, &w.founder),
        Err(ErrorCode::MismatchedReference)
    );
    assert_eq!(
        w.engine.create_conditional_expression(key(63), &key(64), PassOrFail::Pass, &w.founder),
        Err(ErrorCode::NotFound)
    );
    assert_eq!(
        w.engine.create_vault(key(65), &w.fail, &w.underlying, key(66), key(67), &w.founder),
        Err(ErrorCode::MismatchedReference)
    );
    let program = w.engine.program_id();
    let vault = find_vault_address(&w.fail, &w.underlying, &program).unwrap();
    assert_eq!(
        w.engine.create_vault(vault, &w.fail, &w.underlying, key(66), key(67), &w.founder),
        Err(ErrorCode::MismatchedReference)
    );
    assert_eq!(
        w.engine.initialize_deposit_slip(key(68), &w.vault, w.alice.key, &w.founder),
        Err(ErrorCode::MismatchedReference)
    );
    assert_eq!(w.engine.vault(&vault), None);
    assert_eq!(w.engine.vault(&w.vault).unwrap().conditional_expression, w.pass);
    assert_eq!(w.engine.conditional_expression(&w.pass).unwrap().proposal, w.proposal);
}

#[test]
fn only_members_propose_and_admit() {
    let mut w = world(PassOrFail::Pass, 0);
    let stranger = signer(40);
    assert_eq!(w.engine.create_proposal(key(41), &stranger), Err(ErrorCode::Unauthorized));
    assert_eq!(w.engine.add_member(&stranger, key(42)), Err(ErrorCode::Unauthorized));
    let unsigned = Signer { key: w.founder.key, is_signer: false };
    assert_eq!(w.engine.add_member(&unsigned, stranger.key), Err(ErrorCode::Unauthorized));
    assert!(!w.engine.is_member(&stranger.key));
    assert_eq!(w.engine.add_member(&w.founder, stranger.key), Ok(()));
    assert!(w.engine.is_member(&stranger.key));
    assert_eq!(w.engine.add_member(&w.founder, stranger.key), Err(ErrorCode::AlreadyExists));
    assert_eq!(w.engine.create_proposal(key(41), &stranger), Ok(()));
    assert_eq!(w.engine.get_resolution(&key(41)), Ok(ProposalState::Pending));
    assert_eq!(w.engine.add_member(&stranger, key(42)), Ok(()));
}

#[test]
fn custody_moves_through_the_vault_only() {
    let mut w = world(PassOrFail::Pass, 100);
    assert_eq!(deposit(&mut w, 60), Ok(()));
    assert_eq!(
        w.engine.transfer(&w.alice_underlying, &w.custody, &w.alice, 10),
        Err(ErrorCode::Unauthorized)
    );
    assert_eq!(
        w.engine.mint_to(&w.underlying, &w.custody, &w.issuer, 10),
        Err(ErrorCode::Unauthorized)
    );
    let as_vault = Signer { key: w.vault, is_signer: true };
    assert_eq!(
        w.engine.transfer(&w.custody, &w.alice_underlying, &as_vault, 10),
        Err(ErrorCode::Unauthorized)
    );
    assert_eq!(
        w.engine.mint_to(&w.claim, &w.alice_claim, &as_vault, 10),
        Err(ErrorCode::Unauthorized)
    );
    assert_eq!(w.engine.custody_balance(&w.vault), Some(60));
    assert_eq!(w.engine.supply(&w.claim), Some(60));
}

#[test]
fn transfers_move_what_the_owner_holds() {
    let mut w = world(PassOrFail::Pass, 100);
    let bob = signer(20);
    let bob_underlying = key(22);
    assert_eq!(
        w.engine.create_token_account(bob_underlying, &key(23), bob.key),
        Err(ErrorCode::NotFound)
    );
    assert_eq!(w.engine.create_token_account(bob_underlying, &w.underlying, bob.key), Ok(()));
    assert_eq!(
        w.engine.transfer(&w.alice_underlying, &bob_underlying, &w.alice, 101),
        Err(ErrorCode::InsufficientBalance)
    );
    assert_eq!(
        w.engine.transfer(&w.alice_underlying, &bob_underlying, &bob, 10),
        Err(ErrorCode::Unauthorized)
    );
    assert_eq!(
        w.engine.transfer(&w.alice_underlying, &w.alice_claim, &w.alice, 10),
        Err(ErrorCode::MismatchedReference)
    );
    assert_eq!(
        w.engine.transfer(&w.alice_underlying, &w.alice_underlying, &w.alice, 10),
        Err(ErrorCode::MismatchedReference)
    );
    assert_eq!(
        w.engine.transfer(&w.alice_underlying, &key(24), &w.alice, 10),
        Err(ErrorCode::NotFound)
    );
    assert_eq!(w.engine.transfer(&w.alice_underlying, &bob_underlying, &w.alice, 35), Ok(()));
    assert_eq!(w.engine.balance(&w.alice_underlying), Some(65));
    assert_eq!(w.engine.balance(&bob_underlying), Some(35));
    assert_eq!(w.engine.supply(&w.underlying), Some(100));
    assert_eq!(
        w.engine.mint_to(&w.underlying, &bob_underlying, &bob, 1),
        Err(ErrorCode::Unauthorized)
    );
    assert_eq!(
        w.engine.mint_to(&w.underlying, &bob_underlying, &w.issuer, u64::MAX),
        Err(ErrorCode::Overflow)
    );
    assert_eq!(w.engine.balance(&key(24)), None);
    assert_eq!(w.engine.supply(&key(24)), None);
    assert_eq!(w.engine.custody_balance(&key(24)), None);
}

/// Bob with `funds` of the underlying asset, a claim account and the
/// address of his slip.
fn bob(w: &mut World, funds: u64) -> (Signer, Address, Address, Address) {
    let bob = signer(20);
    let underlying = key(22);
    let claim = key(21);
    assert_eq!(w.engine.create_token_account(underlying, &w.underlying, bob.key), Ok(()));
    assert_eq!(w.engine.create_token_account(claim, &w.claim, bob.key), Ok(()));
    assert_eq!(w.engine.mint_to(&w.underlying, &underlying, &w.issuer, funds), Ok(()));
    let slip = find_deposit_slip_address(&w.vault, &bob.key, &w.engine.program_id()).unwrap();
    (bob, underlying, claim, slip)
}

#[test]
fn every_claim_on_a_vault_that_won_is_paid() {
    let mut w = world(PassOrFail::Pass, 100);
    let (bob, bob_underlying, bob_claim, bob_slip) = bob(&mut w, 250);
    assert_eq!(deposit(&mut w, 100), Ok(()));
    assert_eq!(
        w.engine.deposit(&w.vault, &bob, &bob_slip, &bob_underlying, &bob_claim, 250),
        Ok(())
    );
    assert_eq!(w.engine.custody_balance(&w.vault), Some(350));
    assert_eq!(w.engine.supply(&w.claim), Some(350));
    assert_eq!(w.engine.resolve(&w.proposal, PassOrFail::Pass), Ok(()));

    assert_eq!(
        w.engine.redeem_deposit(&w.vault, &bob, &bob_slip, &bob_underlying),
        Err(ErrorCode::ProposalNotResolvedAgainst)
    );
    assert_eq!(redeem_claim(&mut w, 100), Ok(()));
    assert_eq!(w.engine.redeem_claim(&w.vault, &bob, &bob_claim, &bob_underlying, 250), Ok(()));
    assert_eq!(w.engine.custody_balance(&w.vault), Some(0));
    assert_eq!(w.engine.supply(&w.claim), Some(0));
    assert_eq!(w.engine.balance(&w.alice_underlying), Some(100));
    assert_eq!(w.engine.balance(&bob_underlying), Some(250));
    assert_eq!(w.engine.deposited_amount(&w.alice_slip), Some(100));
    assert_eq!(w.engine.deposited_amount(&bob_slip), Some(250));
}

#[test]
fn every_slip_on_a_vault_that_lost_is_paid() {
    let mut w = world(PassOrFail::Pass, 100);
    let (bob, bob_underlying, bob_claim, bob_slip) = bob(&mut w, 250);
    assert_eq!(deposit(&mut w, 100), Ok(()));
    assert_eq!(
        w.engine.deposit(&w.vault, &bob, &bob_slip, &bob_underlying, &bob_claim, 250),
        Ok(())
    );
    assert_eq!(w.engine.transfer(&bob_claim, &w.alice_claim, &bob, 250), Ok(()));
    assert_eq!(w.engine.resolve(&w.proposal, PassOrFail::Fail), Ok(()));

    assert_eq!(redeem_claim(&mut w, 350), Err(ErrorCode::ProposalNotResolvedInFavor));
    assert_eq!(w.engine.redeem_deposit(&w.vault, &bob, &bob_slip, &bob_underlying), Ok(250));
    assert_eq!(w.engine.custody_balance(&w.vault), Some(100));
    assert_eq!(
        w.engine.redeem_deposit(&w.vault, &w.alice, &bob_slip, &w.alice_underlying),
        Err(ErrorCode::MismatchedReference)
    );
    assert_eq!(redeem_deposit(&mut w), Ok(100));
    assert_eq!(w.engine.custody_balance(&w.vault), Some(0));
    assert_eq!(w.engine.balance(&w.alice_underlying), Some(100));
    assert_eq!(w.engine.balance(&bob_underlying), Some(250));
    assert_eq!(w.engine.balance(&w.alice_claim), Some(350));
    assert_eq!(w.engine.supply(&w.claim), Some(350));
}

#[test]
fn the_two_branches_of_a_proposal_pay_along_different_ways() {
    let mut w = world(PassOrFail::Pass, 100);
    let program = w.engine.program_id();
    let other = find_vault_address(&w.fail, &w.underlying, &program).unwrap();
    let other_custody = find_associated_token_address(&other, &w.underlying).unwrap();
    let other_claim = key(71);
    assert_eq!(
        w.engine.create_vault(other, &w.fail, &w.underlying, other_custody, other_claim, &w.founder),
        Ok(())
    );
    let alice_other_claim = key(14);
    assert_eq!(w.engine.create_token_account(alice_other_claim, &other_claim, w.alice.key), Ok(()));
    let other_slip = find_deposit_slip_address(&other, &w.alice.key, &program).unwrap();

    assert_eq!(deposit(&mut w, 60), Ok(()));
    assert_eq!(
        w.engine.deposit(&other, &w.alice, &other_slip, &w.alice_underlying, &alice_other_claim, 40),
        Ok(())
    );
    assert_eq!(w.engine.resolve(&w.proposal, PassOrFail::Pass), Ok(()));

    assert_eq!(redeem_claim(&mut w, 60), Ok(()));
    assert_eq!(
        w.engine.redeem_claim(&other, &w.alice, &alice_other_claim, &w.alice_underlying, 40),
        Err(ErrorCode::ProposalNotResolvedInFavor)
    );
    assert_eq!(
        w.engine.redeem_deposit(&other, &w.alice, &other_slip, &w.alice_underlying),
        Ok(40)
    );
    assert_eq!(redeem_deposit(&mut w), Err(ErrorCode::ProposalNotResolvedAgainst));
    assert_eq!(w.engine.balance(&w.alice_underlying), Some(100));
    assert_eq!(w.engine.custody_balance(&w.vault), Some(0));
    assert_eq!(w.engine.custody_balance(&other), Some(0));
}
