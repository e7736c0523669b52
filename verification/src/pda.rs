//! Addresses that are derived from seeds. A record of the engine is kept
//! at the address derived from what identifies it, so that there is one
//! record for one identity.

use vstd::prelude::*;
use vstd::string::StrSliceExecFns;
use vstd::string::StringSliceAdditionalSpecFns;
use crate::address::Address;
use crate::state::PassOrFail;

verus! {

/// The address and the bump seed that are derived from a list of seeds and
/// the id of the program that owns the address, or `None` where none can
/// be derived. It depends on the seeds and the program id and on nothing
/// else.
pub uninterp spec fn program_address(seeds: Seq<Seq<u8>>, program_id: Seq<u8>) -> Option<
    (Seq<u8>, u8),
>;

/// A list of seeds as a sequence of byte strings.
pub open spec fn seeds_view(seeds: &Vec<Vec<u8>>) -> Seq<Seq<u8>> {
    Seq::new(seeds@.len(), |i: int| seeds@[i]@)
}

/// A derived address and its bump seed as bytes.
pub open spec fn derived_view(derived: Option<(Address, u8)>) -> Option<(Seq<u8>, u8)> {
    match derived {
        Some((address, bump)) => Some((address@, bump)),
        None => None,
    }
}

/// `address` is the address that is derived from `seeds` for `program_id`.
pub open spec fn is_derived(address: Address, seeds: Seq<Seq<u8>>, program_id: Seq<u8>) -> bool {
    match program_address(seeds, program_id) {
        Some((bytes, _)) => bytes == address@,
        None => false,
    }
}

/// Calls `Pubkey::try_find_program_address` of `solana_program`, which
/// hashes the seeds, a bump seed and the program id, and tries the bump
/// seeds from 255 downwards until the hash is no point of the curve. What
/// comes back is not stated here: it is named `program_address`, as a
/// function of the seeds and the program id.
#[verifier::external_body]
fn try_find_program_address(seeds: &Vec<Vec<u8>>, program_id: &Address) -> (derived: Option<
    (Address, u8),
>)
    ensures
        derived_view(derived) == program_address(seeds_view(seeds), program_id@),
{
    let parts: Vec<&[u8]> = seeds.iter().map(|seed| seed.as_slice()).collect();
    let id = anchor_lang::prelude::Pubkey::new_from_array(program_id.bytes);
    match anchor_lang::prelude::Pubkey::try_find_program_address(&parts, &id) {
        Some((key, bump)) => Some((Address { bytes: key.to_bytes() }, bump)),
        None => None,
    }
}

/// Whether `address` is the one that a derivation gave.
pub fn matches_derived(address: &Address, derived: &Option<(Address, u8)>) -> (r: bool)
    ensures
        r == match *derived {
            Some((found, _)) => found == *address,
            None => false,
        },
{
    match derived {
        Some((found, _)) => *found == *address,
        None => false,
    }
}

/// Whether `address` is the one derived from `seeds` for `program_id`.
pub fn is_program_address(address: &Address, seeds: &Vec<Vec<u8>>, program_id: &Address) -> (r:
    bool)
    ensures
        r == is_derived(*address, seeds_view(seeds), program_id@),
{
    let derived = try_find_program_address(seeds, program_id);
    proof {
        match derived {
            Some((found, _)) => {
                Address::lemma_view_injective(found, *address);
            },
            None => {},
        }
    }
    matches_derived(address, &derived)
}

/// The address derived from `seeds` for `program_id`, if there is one.
pub fn find_program_address(seeds: &Vec<Vec<u8>>, program_id: &Address) -> (r: Option<Address>)
    ensures
        match r {
            Some(address) => is_derived(address, seeds_view(seeds), program_id@),
            None => program_address(seeds_view(seeds), program_id@) is None,
        },
{
    match try_find_program_address(seeds, program_id) {
        Some((address, _)) => Some(address),
        None => None,
    }
}

/// The program that keeps token accounts.
pub open spec fn token_program_id() -> Seq<u8> {
    seq![
        6u8, 221, 246, 225, 215, 101, 161, 147, 217, 203, 225, 70, 206, 235, 121, 172, 28, 180,
        133, 237, 95, 91, 55, 145, 58, 140, 245, 133, 126, 255, 0, 169,
    ]
}

/// The program that derives the token account of a wallet for a mint.
pub open spec fn associated_token_program_id() -> Seq<u8> {
    seq![
        140u8, 151, 37, 143, 78, 36, 137, 241, 187, 61, 16, 41, 20, 142, 13, 131, 11, 90, 19, 153,
        218, 255, 16, 132, 4, 142, 123, 216, 219, 233, 248, 89,
    ]
}

pub open spec fn meta_dao_prefix() -> Seq<u8> {
    seq![
        87u8, 87, 67, 65, 67, 79, 84, 77, 73, 67, 77, 73, 66, 77, 72, 65, 70, 84, 84, 87, 89, 71,
        72, 77, 66,
    ]
}

pub open spec fn member_prefix() -> Seq<u8> {
    seq![109u8, 101, 109, 98, 101, 114]
}

pub open spec fn treasury_prefix() -> Seq<u8> {
    seq![116u8, 114, 101, 97, 115, 117, 114, 121]
}

pub open spec fn conditional_expression_prefix() -> Seq<u8> {
    seq![
        99u8, 111, 110, 100, 105, 116, 105, 111, 110, 97, 108, 95, 101, 120, 112, 114, 101, 115,
        115, 105, 111, 110,
    ]
}

pub open spec fn vault_prefix() -> Seq<u8> {
    seq![118u8, 97, 117, 108, 116]
}

pub open spec fn deposit_slip_prefix() -> Seq<u8> {
    seq![100u8, 101, 112, 111, 115, 105, 116, 95, 115, 108, 105, 112]
}

/// The seeds of the registry, of which there is one.
pub open spec fn meta_dao_seeds() -> Seq<Seq<u8>> {
    seq![meta_dao_prefix()]
}

/// The seeds of the member called `name`.
pub open spec fn member_seeds(name: Seq<u8>) -> Seq<Seq<u8>> {
    seq![member_prefix(), name]
}

/// The seeds of the treasury of `member`.
pub open spec fn treasury_seeds(member: Address) -> Seq<Seq<u8>> {
    seq![treasury_prefix(), member@]
}

/// The seeds of the branch `pass_or_fail` of `proposal`.
pub open spec fn conditional_expression_seeds(proposal: Address, pass_or_fail: PassOrFail) -> Seq<
    Seq<u8>,
> {
    seq![conditional_expression_prefix(), proposal@, seq![pass_or_fail.spec_seed_byte()]]
}

/// The seeds of the vault of `conditional_expression` for the asset
/// `underlying_token_mint`.
pub open spec fn vault_seeds(conditional_expression: Address, underlying_token_mint: Address) -> Seq<
    Seq<u8>,
> {
    seq![vault_prefix(), conditional_expression@, underlying_token_mint@]
}

/// The seeds of the slip of `user` on `vault`.
pub open spec fn deposit_slip_seeds(vault: Address, user: Address) -> Seq<Seq<u8>> {
    seq![deposit_slip_prefix(), vault@, user@]
}

/// The seeds of the token account of `wallet` for `mint`.
pub open spec fn associated_token_seeds(wallet: Address, mint: Address) -> Seq<Seq<u8>> {
    seq![wallet@, token_program_id(), mint@]
}

fn seeds_of_one(a: Vec<u8>) -> (seeds: Vec<Vec<u8>>)
    ensures
        seeds_view(&seeds) == seq![a@],
{
    let mut seeds: Vec<Vec<u8>> = Vec::new();
    seeds.push(a);
    assert(seeds_view(&seeds) =~= seq![a@]);
    seeds
}

fn seeds_of_two(a: Vec<u8>, b: Vec<u8>) -> (seeds: Vec<Vec<u8>>)
    ensures
        seeds_view(&seeds) == seq![a@, b@],
{
    let mut seeds: Vec<Vec<u8>> = Vec::new();
    seeds.push(a);
    seeds.push(b);
    assert(seeds_view(&seeds) =~= seq![a@, b@]);
    seeds
}

fn seeds_of_three(a: Vec<u8>, b: Vec<u8>, c: Vec<u8>) -> (seeds: Vec<Vec<u8>>)
    ensures
        seeds_view(&seeds) == seq![a@, b@, c@],
{
    let mut seeds: Vec<Vec<u8>> = Vec::new();
    seeds.push(a);
    seeds.push(b);
    seeds.push(c);
    assert(seeds_view(&seeds) =~= seq![a@, b@, c@]);
    seeds
}

fn seeds_for_meta_dao() -> (seeds: Vec<Vec<u8>>)
    ensures
        seeds_view(&seeds) == meta_dao_seeds(),
{
    let prefix: Vec<u8> = vec![
        87u8, 87, 67, 65, 67, 79, 84, 77, 73, 67, 77, 73, 66, 77, 72, 65, 70, 84, 84, 87, 89, 71,
        72, 77, 66,
    ];
    assert(prefix@ =~= meta_dao_prefix());
    seeds_of_one(prefix)
}

fn seeds_for_member(name: &str) -> (seeds: Vec<Vec<u8>>)
    ensures
        seeds_view(&seeds) == member_seeds(name.spec_bytes()),
{
    let prefix: Vec<u8> = vec![109u8, 101, 109, 98, 101, 114];
    assert(prefix@ =~= member_prefix());
    seeds_of_two(prefix, name.as_bytes_vec())
}

fn seeds_for_treasury(member: &Address) -> (seeds: Vec<Vec<u8>>)
    ensures
        seeds_view(&seeds) == treasury_seeds(*member),
{
    let prefix: Vec<u8> = vec![116u8, 114, 101, 97, 115, 117, 114, 121];
    assert(prefix@ =~= treasury_prefix());
    seeds_of_two(prefix, member.to_vec())
}

fn seeds_for_conditional_expression(proposal: &Address, pass_or_fail: PassOrFail) -> (seeds: Vec<
    Vec<u8>,
>)
    ensures
        seeds_view(&seeds) == conditional_expression_seeds(*proposal, pass_or_fail),
{
    let prefix: Vec<u8> = vec![
        99u8, 111, 110, 100, 105, 116, 105, 111, 110, 97, 108, 95, 101, 120, 112, 114, 101, 115,
        115, 105, 111, 110,
    ];
    assert(prefix@ =~= conditional_expression_prefix());
    let branch: Vec<u8> = vec![pass_or_fail.seed_byte()];
    assert(branch@ =~= seq![pass_or_fail.spec_seed_byte()]);
    seeds_of_three(prefix, proposal.to_vec(), branch)
}

fn seeds_for_vault(conditional_expression: &Address, underlying_token_mint: &Address) -> (seeds:
    Vec<Vec<u8>>)
    ensures
        seeds_view(&seeds) == vault_seeds(*conditional_expression, *underlying_token_mint),
{
    let prefix: Vec<u8> = vec![118u8, 97, 117, 108, 116];
    assert(prefix@ =~= vault_prefix());
    seeds_of_three(prefix, conditional_expression.to_vec(), underlying_token_mint.to_vec())
}

fn seeds_for_deposit_slip(vault: &Address, user: &Address) -> (seeds: Vec<Vec<u8>>)
    ensures
        seeds_view(&seeds) == deposit_slip_seeds(*vault, *user),
{
    let prefix: Vec<u8> = vec![100u8, 101, 112, 111, 115, 105, 116, 95, 115, 108, 105, 112];
    assert(prefix@ =~= deposit_slip_prefix());
    seeds_of_three(prefix, vault.to_vec(), user.to_vec())
}

fn seeds_for_associated_token(wallet: &Address, mint: &Address) -> (seeds: Vec<Vec<u8>>)
    ensures
        seeds_view(&seeds) == associated_token_seeds(*wallet, *mint),
{
    let token_program: Vec<u8> = vec![
        6u8, 221, 246, 225, 215, 101, 161, 147, 217, 203, 225, 70, 206, 235, 121, 172, 28, 180,
        133, 237, 95, 91, 55, 145, 58, 140, 245, 133, 126, 255, 0, 169,
    ];
    assert(token_program@ =~= token_program_id());
    seeds_of_three(wallet.to_vec(), token_program, mint.to_vec())
}

/// The program that derives the token account of a wallet for a mint.
pub fn associated_token_program() -> (id: Address)
    ensures
        id@ == associated_token_program_id(),
{
    let id = Address {
        bytes: [
            140u8, 151, 37, 143, 78, 36, 137, 241, 187, 61, 16, 41, 20, 142, 13, 131, 11, 90, 19,
            153, 218, 255, 16, 132, 4, 142, 123, 216, 219, 233, 248, 89,
        ],
    };
    assert(id@ =~= associated_token_program_id());
    id
}

/// Whether `address` is where the registry is kept.
pub fn is_meta_dao_address(address: &Address, program_id: &Address) -> (r: bool)
    ensures
        r == is_derived(*address, meta_dao_seeds(), program_id@),
{
    is_program_address(address, &seeds_for_meta_dao(), program_id)
}

/// Where the registry is kept.
pub fn find_meta_dao_address(program_id: &Address) -> (r: Option<Address>)
    ensures
        match r {
            Some(address) => is_derived(address, meta_dao_seeds(), program_id@),
            None => program_address(meta_dao_seeds(), program_id@) is None,
        },
{
    find_program_address(&seeds_for_meta_dao(), program_id)
}

/// Whether `address` is where the member called `name` is kept.
pub fn is_member_address(address: &Address, name: &str, program_id: &Address) -> (r: bool)
    ensures
        r == is_derived(*address, member_seeds(name.spec_bytes()), program_id@),
{
    is_program_address(address, &seeds_for_member(name), program_id)
}

/// Where the member called `name` is kept.
pub fn find_member_address(name: &str, program_id: &Address) -> (r: Option<Address>)
    ensures
        match r {
            Some(address) => is_derived(address, member_seeds(name.spec_bytes()), program_id@),
            None => program_address(member_seeds(name.spec_bytes()), program_id@) is None,
        },
{
    find_program_address(&seeds_for_member(name), program_id)
}

/// Whether `address` is the treasury of `member`.
pub fn is_treasury_address(address: &Address, member: &Address, program_id: &Address) -> (r: bool)
    ensures
        r == is_derived(*address, treasury_seeds(*member), program_id@),
{
    is_program_address(address, &seeds_for_treasury(member), program_id)
}

/// The treasury of `member`.
pub fn find_treasury_address(member: &Address, program_id: &Address) -> (r: Option<Address>)
    ensures
        match r {
            Some(address) => is_derived(address, treasury_seeds(*member), program_id@),
            None => program_address(treasury_seeds(*member), program_id@) is None,
        },
{
    find_program_address(&seeds_for_treasury(member), program_id)
}

/// Whether `address` is where the branch `pass_or_fail` of `proposal` is
/// kept.
pub fn is_conditional_expression_address(
    address: &Address,
    proposal: &Address,
    pass_or_fail: PassOrFail,
    program_id: &Address,
) -> (r: bool)
    ensures
        r == is_derived(
            *address,
            conditional_expression_seeds(*proposal, pass_or_fail),
            program_id@,
        ),
{
    is_program_address(
        address,
        &seeds_for_conditional_expression(proposal, pass_or_fail),
        program_id,
    )
}

/// Where the branch `pass_or_fail` of `proposal` is kept.
pub fn find_conditional_expression_address(
    proposal: &Address,
    pass_or_fail: PassOrFail,
    program_id: &Address,
) -> (r: Option<Address>)
    ensures
        match r {
            Some(address) => is_derived(
                address,
                conditional_expression_seeds(*proposal, pass_or_fail),
                program_id@,
            ),
            None => program_address(
                conditional_expression_seeds(*proposal, pass_or_fail),
                program_id@,
            ) is None,
        },
{
    find_program_address(&seeds_for_conditional_expression(proposal, pass_or_fail), program_id)
}

/// Whether `address` is where the vault of `conditional_expression` for
/// the asset `underlying_token_mint` is kept.
pub fn is_vault_address(
    address: &Address,
    conditional_expression: &Address,
    underlying_token_mint: &Address,
    program_id: &Address,
) -> (r: bool)
    ensures
        r == is_derived(
            *address,
            vault_seeds(*conditional_expression, *underlying_token_mint),
            program_id@,
        ),
{
    is_program_address(
        address,
        &seeds_for_vault(conditional_expression, underlying_token_mint),
        program_id,
    )
}

/// Where the vault of `conditional_expression` for the asset
/// `underlying_token_mint` is kept.
pub fn find_vault_address(
    conditional_expression: &Address,
    underlying_token_mint: &Address,
    program_id: &Address,
) -> (r: Option<Address>)
    ensures
        match r {
            Some(address) => is_derived(
                address,
                vault_seeds(*conditional_expression, *underlying_token_mint),
                program_id@,
            ),
            None => program_address(
                vault_seeds(*conditional_expression, *underlying_token_mint),
                program_id@,
            ) is None,
        },
{
    find_program_address(
        &seeds_for_vault(conditional_expression, underlying_token_mint),
        program_id,
    )
}

/// Whether `address` is where the slip of `user` on `vault` is kept.
pub fn is_deposit_slip_address(
    address: &Address,
    vault: &Address,
    user: &Address,
    program_id: &Address,
) -> (r: bool)
    ensures
        r == is_derived(*address, deposit_slip_seeds(*vault, *user), program_id@),
{
    is_program_address(address, &seeds_for_deposit_slip(vault, user), program_id)
}

/// Where the slip of `user` on `vault` is kept.
pub fn find_deposit_slip_address(vault: &Address, user: &Address, program_id: &Address) -> (r:
    Option<Address>)
    ensures
        match r {
            Some(address) => is_derived(address, deposit_slip_seeds(*vault, *user), program_id@),
            None => program_address(deposit_slip_seeds(*vault, *user), program_id@) is None,
        },
{
    find_program_address(&seeds_for_deposit_slip(vault, user), program_id)
}

/// Whether `address` is the token account of `wallet` for `mint`: the
/// address derived for the associated-token program from the wallet, the
/// token program and the mint. It is derived here, not asked of the token
/// crates' helper, which panics where no address can be derived.
pub fn is_associated_token_address(address: &Address, wallet: &Address, mint: &Address) -> (r: bool)
    ensures
        r == is_derived(
            *address,
            associated_token_seeds(*wallet, *mint),
            associated_token_program_id(),
        ),
{
    is_program_address(
        address,
        &seeds_for_associated_token(wallet, mint),
        &associated_token_program(),
    )
}

/// The token account of `wallet` for `mint`.
pub fn find_associated_token_address(wallet: &Address, mint: &Address) -> (r: Option<Address>)
    ensures
        match r {
            Some(address) => is_derived(
                address,
                associated_token_seeds(*wallet, *mint),
                associated_token_program_id(),
            ),
            None => program_address(
                associated_token_seeds(*wallet, *mint),
                associated_token_program_id(),
            ) is None,
        },
{
    find_program_address(&seeds_for_associated_token(wallet, mint), &associated_token_program())
}

} // verus!
