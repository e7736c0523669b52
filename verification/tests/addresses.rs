use anchor_lang::prelude::Pubkey;
use anchor_spl::associated_token::get_associated_token_address;
use autocrat::address::Address;
use autocrat::pda::{
    associated_token_program, find_associated_token_address, find_conditional_expression_address,
    find_deposit_slip_address, find_member_address, find_meta_dao_address, find_program_address,
    find_treasury_address, find_vault_address, is_associated_token_address,
    is_conditional_expression_address, is_deposit_slip_address, is_member_address,
    is_meta_dao_address, is_program_address, is_treasury_address, is_vault_address,
    matches_derived,
};
use autocrat::state::PassOrFail;

fn at(n: u8) -> Address {
    Address::new([n; 32])
}

fn pubkey(a: &Address) -> Pubkey {
    Pubkey::new_from_array(a.bytes)
}

fn expected(seeds: &[&[u8]], program: &Address) -> Address {
    Address::new(Pubkey::find_program_address(seeds, &pubkey(program)).0.to_bytes())
}

#[test]
fn a_derived_address_is_another_than_its_seeds() {
    let program = at(7);
    let seeds = vec![vec![1u8, 2, 3]];
    let found = find_program_address(&seeds, &program).unwrap();
    assert_eq!(found, expected(&[&[1u8, 2, 3]], &program));
    assert_ne!(found, program);
    assert!(is_program_address(&found, &seeds, &program));
    assert!(!is_program_address(&program, &seeds, &program));
    assert!(!is_program_address(&found, &vec![vec![1u8, 2, 4]], &program));
    assert!(!is_program_address(&found, &seeds, &at(8)));
}

#[test]
fn no_address_is_derived_from_a_seed_that_is_too_long() {
    let program = at(7);
    assert_eq!(find_program_address(&vec![vec![0u8; 33]], &program), None);
    assert!(!is_program_address(&at(1), &vec![vec![0u8; 33]], &program));
    assert_eq!(find_program_address(&vec![vec![0u8; 1]; 16], &program), None);
    assert!(find_program_address(&vec![vec![0u8; 32]; 15], &program).is_some());
    assert_eq!(find_member_address("a name of more than thirty-two bytes", &program), None);
}

#[test]
fn a_derivation_is_matched_by_its_address_only() {
    assert!(matches_derived(&at(1), &Some((at(1), 254))));
    assert!(!matches_derived(&at(2), &Some((at(1), 254))));
    assert!(!matches_derived(&at(1), &None));
}

#[test]
fn the_registry_is_derived_from_its_fixed_seed() {
    let program = at(200);
    let found = find_meta_dao_address(&program).unwrap();
    assert_eq!(found, expected(&[b"WWCACOTMICMIBMHAFTTWYGHMB"], &program));
    assert!(is_meta_dao_address(&found, &program));
    assert!(!is_meta_dao_address(&at(1), &program));
}

#[test]
fn a_member_is_derived_from_its_name() {
    let program = at(200);
    let found = find_member_address("alice", &program).unwrap();
    assert_eq!(found, expected(&[b"member", b"alice"], &program));
    assert!(is_member_address(&found, "alice", &program));
    assert!(!is_member_address(&found, "bob", &program));
    let treasury = find_treasury_address(&found, &program).unwrap();
    assert_eq!(treasury, expected(&[b"treasury", &found.bytes], &program));
    assert!(is_treasury_address(&treasury, &found, &program));
    assert!(!is_treasury_address(&found, &found, &program));
}

#[test]
fn a_branch_is_derived_from_proposal_and_tag() {
    let program = at(200);
    let proposal = at(60);
    let pass = find_conditional_expression_address(&proposal, PassOrFail::Pass, &program).unwrap();
    let fail = find_conditional_expression_address(&proposal, PassOrFail::Fail, &program).unwrap();
    assert_eq!(pass, expected(&[b"conditional_expression", &proposal.bytes, &[0u8]], &program));
    assert_eq!(fail, expected(&[b"conditional_expression", &proposal.bytes, &[1u8]], &program));
    assert_ne!(pass, fail);
    assert!(is_conditional_expression_address(&pass, &proposal, PassOrFail::Pass, &program));
    assert!(!is_conditional_expression_address(&pass, &proposal, PassOrFail::Fail, &program));
    assert!(!is_conditional_expression_address(&pass, &at(61), PassOrFail::Pass, &program));
}

#[test]
fn a_vault_is_derived_from_branch_and_asset() {
    let program = at(200);
    let found = find_vault_address(&at(1), &at(2), &program).unwrap();
    assert_eq!(found, expected(&[b"vault", &[1u8; 32], &[2u8; 32]], &program));
    assert!(is_vault_address(&found, &at(1), &at(2), &program));
    assert!(!is_vault_address(&found, &at(2), &at(1), &program));
}

#[test]
fn a_slip_is_derived_from_vault_and_depositor() {
    let program = at(200);
    let found = find_deposit_slip_address(&at(1), &at(2), &program).unwrap();
    assert_eq!(found, expected(&[b"deposit_slip", &[1u8; 32], &[2u8; 32]], &program));
    assert!(is_deposit_slip_address(&found, &at(1), &at(2), &program));
    assert!(!is_deposit_slip_address(&found, &at(1), &at(3), &program));
}

#[test]
fn a_custody_account_is_the_token_account_of_the_vault() {
    assert_eq!(pubkey(&associated_token_program()), anchor_spl::associated_token::ID);
    for (wallet, mint) in [(at(1), at(2)), (at(2), at(1)), (at(255), at(0))] {
        let found = find_associated_token_address(&wallet, &mint).unwrap();
        let theirs = get_associated_token_address(&pubkey(&wallet), &pubkey(&mint));
        assert_eq!(pubkey(&found), theirs);
        assert!(is_associated_token_address(&found, &wallet, &mint));
        assert!(!is_associated_token_address(&found, &mint, &wallet));
    }
}
