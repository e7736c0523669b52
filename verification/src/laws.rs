//! What holds of the engine whatever is asked of it.

use vstd::prelude::*;
use crate::address::Address;
use crate::error::ErrorCode;
use crate::history::Operation;
use crate::model::{claim_payouts, deposits, slip_payouts, State};
use crate::preservation::{
    lemma_add_member_keeps_invariant, lemma_create_conditional_expression_keeps_invariant,
    lemma_create_mint_keeps_invariant, lemma_create_proposal_keeps_invariant,
    lemma_create_token_account_keeps_invariant, lemma_create_vault_keeps_invariant,
    lemma_deposit_keeps_invariant, lemma_initialize_deposit_slip_keeps_invariant,
    lemma_mint_to_keeps_invariant, lemma_redeem_claim_keeps_invariant,
    lemma_redeem_deposit_keeps_invariant, lemma_resolve_keeps_invariant,
    lemma_transfer_keeps_invariant,
};
use crate::state::{PassOrFail, ProposalState, Signer};
use crate::sums::{held, holding_of, lemma_sum_bound, lemma_sum_bound_two, slip_of, slipped};

verus! {

/// A state without records and without payments has the invariant.
pub proof fn law_initial_state_has_invariant(s: State)
    requires
        s.is_initial(),
    ensures
        s.inv(),
{
}

/// Whatever call is accepted, the state after it has the invariant if the
/// state before it had.
pub proof fn law_step_keeps_invariant(s: State, op: Operation)
    requires
        s.inv(),
    ensures
        s.apply(op) matches Ok(next) ==> next.inv(),
{
    if s.apply(op) is Ok {
        match op {
            Operation::AddMember { authorized_by, member } => {
                lemma_add_member_keeps_invariant(s, authorized_by, member);
            },
            Operation::CreateProposal { proposal, initializer } => {
                lemma_create_proposal_keeps_invariant(s, proposal, initializer);
            },
            Operation::Resolve { proposal, outcome } => {
                lemma_resolve_keeps_invariant(s, proposal, outcome);
            },
            Operation::CreateConditionalExpression {
                conditional_expression,
                proposal,
                pass_or_fail,
                initializer,
            } => {
                lemma_create_conditional_expression_keeps_invariant(
                    s,
                    conditional_expression,
                    proposal,
                    pass_or_fail,
                    initializer,
                );
            },
            Operation::CreateVault {
                vault,
                conditional_expression,
                underlying_token_mint,
                vault_underlying_token_account,
                conditional_token_mint,
                initializer,
            } => {
                lemma_create_vault_keeps_invariant(
                    s,
                    vault,
                    conditional_expression,
                    underlying_token_mint,
                    vault_underlying_token_account,
                    conditional_token_mint,
                    initializer,
                );
            },
            Operation::InitializeDepositSlip { deposit_slip, vault, user, initializer } => {
                lemma_initialize_deposit_slip_keeps_invariant(
                    s,
                    deposit_slip,
                    vault,
                    user,
                    initializer,
                );
            },
            Operation::Deposit {
                vault,
                user,
                deposit_slip,
                user_underlying_token_account,
                user_conditional_token_account,
                amount,
            } => {
                lemma_deposit_keeps_invariant(
                    s,
                    vault,
                    user,
                    deposit_slip,
                    user_underlying_token_account,
                    user_conditional_token_account,
                    amount,
                );
            },
            Operation::RedeemClaim {
                vault,
                user,
                user_conditional_token_account,
                user_underlying_token_account,
                amount,
            } => {
                lemma_redeem_claim_keeps_invariant(
                    s,
                    vault,
                    user,
                    user_conditional_token_account,
                    user_underlying_token_account,
                    amount,
                );
            },
            Operation::RedeemDeposit {
                vault,
                user,
                deposit_slip,
                user_underlying_token_account,
            } => {
                lemma_redeem_deposit_keeps_invariant(
                    s,
                    vault,
                    user,
                    deposit_slip,
                    user_underlying_token_account,
                );
            },
            Operation::CreateMint { mint, authority, decimals } => {
                lemma_create_mint_keeps_invariant(s, mint, authority, decimals);
            },
            Operation::CreateTokenAccount { account, mint, owner } => {
                lemma_create_token_account_keeps_invariant(s, account, mint, owner);
            },
            Operation::MintTo { mint, to, authority, amount } => {
                lemma_mint_to_keeps_invariant(s, mint, to, authority, amount);
            },
            Operation::Transfer { from, to, authority, amount } => {
                lemma_transfer_keeps_invariant(s, from, to, authority, amount);
            },
        }
    }
}

/// The invariant holds after every history of calls, accepted or refused.
pub proof fn law_invariant_along_history(s: State, history: Seq<Operation>)
    requires
        s.inv(),
    ensures
        s.after(history).inv(),
    decreases history.len(),
{
    if history.len() > 0 {
        law_invariant_along_history(s, history.drop_last());
        law_step_keeps_invariant(s.after(history.drop_last()), history.last());
    }
}

/// Conservation. Start without records and make any calls: of every vault
/// that then exists, what it holds in custody is what was deposited into
/// it, less what it paid for claims, less what it paid for deposit slips.
/// So the payouts of a vault never exceed the deposits into it.
pub proof fn law_conservation(s: State, history: Seq<Operation>, vault: Address)
    requires
        s.is_initial(),
        s.after(history).vaults.contains_key(vault),
    ensures
        s.after(history).custody_balance(vault) == deposits(s.after(history).log, vault)
            - claim_payouts(s.after(history).log, vault) - slip_payouts(
            s.after(history).log,
            vault,
        ),
        claim_payouts(s.after(history).log, vault) + slip_payouts(s.after(history).log, vault)
            <= deposits(s.after(history).log, vault),
{
    law_invariant_along_history(s, history);
}

/// One branch for a proposal and a tag: two branches of the same proposal
/// with the same tag are one and the same record.
pub proof fn law_one_branch_per_proposal_and_tag(s: State, a: Address, b: Address)
    requires
        s.inv(),
        s.expressions.contains_key(a),
        s.expressions.contains_key(b),
        s.expressions[a].proposal == s.expressions[b].proposal,
        s.expressions[a].pass_or_fail == s.expressions[b].pass_or_fail,
    ensures
        a == b,
{
    Address::lemma_view_injective(a, b);
}

/// One vault for a branch and an asset.
pub proof fn law_one_vault_per_branch_and_asset(s: State, a: Address, b: Address)
    requires
        s.inv(),
        s.vaults.contains_key(a),
        s.vaults.contains_key(b),
        s.vaults[a].conditional_expression == s.vaults[b].conditional_expression,
        s.vaults[a].underlying_token_mint == s.vaults[b].underlying_token_mint,
    ensures
        a == b,
{
    Address::lemma_view_injective(a, b);
}

/// One slip for a vault and a depositor.
pub proof fn law_one_slip_per_vault_and_depositor(s: State, a: Address, b: Address)
    requires
        s.inv(),
        s.slips.contains_key(a),
        s.slips.contains_key(b),
        s.slips[a].vault == s.slips[b].vault,
        s.slips[a].user == s.slips[b].user,
    ensures
        a == b,
{
    Address::lemma_view_injective(a, b);
}

/// Records are kept. No call changes or removes a branch or a vault, and
/// none removes a slip or moves it to another vault or depositor. What a
/// slip holds grows with the deposits and falls only once, to nothing,
/// when the slip is redeemed.
pub proof fn law_records_are_kept(s: State, op: Operation, key: Address)
    requires
        s.apply(op) is Ok,
    ensures
        s.expressions.contains_key(key) ==> s.apply(op)->Ok_0.expressions.contains_key(key)
            && s.apply(op)->Ok_0.expressions[key] == s.expressions[key],
        s.vaults.contains_key(key) ==> s.apply(op)->Ok_0.vaults.contains_key(key) && s.apply(
            op,
        )->Ok_0.vaults[key] == s.vaults[key],
        s.slips.contains_key(key) ==> {
            &&& s.apply(op)->Ok_0.slips.contains_key(key)
            &&& s.apply(op)->Ok_0.slips[key].vault == s.slips[key].vault
            &&& s.apply(op)->Ok_0.slips[key].user == s.slips[key].user
            &&& s.apply(op)->Ok_0.slips[key].deposited_amount >= s.slips[key].deposited_amount || (
            op matches Operation::RedeemDeposit { deposit_slip, .. } && deposit_slip == key
                && s.apply(op)->Ok_0.slips[key].deposited_amount == 0)
        },
{
    match op {
        Operation::Deposit {
            vault,
            user,
            deposit_slip,
            user_underlying_token_account,
            user_conditional_token_account,
            ..
        } => {
            let records = s.load_deposit(
                vault,
                user,
                deposit_slip,
                user_underlying_token_account,
                user_conditional_token_account,
            )->Ok_0;
            assert(records.references() is Ok);
        },
        _ => {},
    }
}

/// A vault pays along one way only: one that ever paid for claims never
/// paid for a deposit slip, and the other way round.
pub proof fn law_one_way_out(s: State, vault: Address)
    requires
        s.inv(),
        s.vaults.contains_key(vault),
    ensures
        claim_payouts(s.log, vault) == 0 || slip_payouts(s.log, vault) == 0,
{
}

/// Until a vault has lost, every claim on it is backed: what the vault
/// holds in custody is what is in circulation of its claim asset.
pub proof fn law_claims_backed(s: State, vault: Address)
    requires
        s.inv(),
        s.vaults.contains_key(vault),
        !s.lost(vault),
    ensures
        s.custody_balance(vault) == s.mints[s.vaults[vault].conditional_token_mint].supply,
{
}

/// No double redemption. Once a deposit slip is redeemed it holds nothing,
/// and the same redemption again is refused with `NotFound` until there
/// is a new deposit.
pub proof fn law_no_double_redemption(
    s: State,
    vault: Address,
    user: Signer,
    deposit_slip: Address,
    user_underlying_token_account: Address,
)
    requires
        s.redeem_deposit(vault, user, deposit_slip, user_underlying_token_account) is Ok,
    ensures
        ({
            let (next, paid) = s.redeem_deposit(
                vault,
                user,
                deposit_slip,
                user_underlying_token_account,
            )->Ok_0;
            &&& paid == s.slips[deposit_slip].deposited_amount
            &&& paid > 0
            &&& next.slips[deposit_slip].deposited_amount == 0
            &&& next.redeem_deposit(vault, user, deposit_slip, user_underlying_token_account)
                == Err::<(State, u64), ErrorCode>(ErrorCode::NotFound)
        }),
{
    let records = s.load_redeem_deposit(vault, user, deposit_slip, user_underlying_token_account)->Ok_0;
    assert(records.references() is Ok);
    let (next, paid) = s.redeem_deposit(vault, user, deposit_slip, user_underlying_token_account)->Ok_0;
    assert(next.branch(vault) == s.branch(vault));
    let again = next.load_redeem_deposit(vault, user, deposit_slip, user_underlying_token_account);
    assert(again is Ok);
    assert(again->Ok_0.gate() is Ok);
    assert(again->Ok_0.references() is Ok);
}

/// Resolution gating. Of a vault that exists, a redemption of claims is
/// refused with `ProposalNotResolvedInFavor` exactly when the proposal has
/// not resolved to the vault's branch: while it is pending, and when it
/// has resolved to the other branch. Whoever asks, and for whatever
/// amount. So a redemption of claims that succeeds is one on a vault that
/// won.
pub proof fn law_resolution_gating(
    s: State,
    vault: Address,
    user: Signer,
    user_conditional_token_account: Address,
    user_underlying_token_account: Address,
    amount: u64,
)
    requires
        s.inv(),
        s.vaults.contains_key(vault),
    ensures
        s.branch(vault) is Some,
        s.won(vault) <==> s.branch(vault)->Some_0.1 == s.branch(
            vault,
        )->Some_0.0.pass_or_fail.terminal(),
        s.branch(vault)->Some_0.1 == ProposalState::Pending ==> !s.won(vault),
        !s.won(vault) <==> s.redeem_claim(
            vault,
            user,
            user_conditional_token_account,
            user_underlying_token_account,
            amount,
        ) == Err::<State, ErrorCode>(ErrorCode::ProposalNotResolvedInFavor),
        s.redeem_claim(
            vault,
            user,
            user_conditional_token_account,
            user_underlying_token_account,
            amount,
        ) is Ok ==> s.won(vault),
{
    assert(s.expressions.contains_key(s.vaults[vault].conditional_expression));
    let r = s.redeem_claim(
        vault,
        user,
        user_conditional_token_account,
        user_underlying_token_account,
        amount,
    );
    if s.won(vault) {
        let loaded = s.load_redeem_claim(
            vault,
            user,
            user_conditional_token_account,
            user_underlying_token_account,
        );
        if loaded is Ok {
            assert(loaded->Ok_0.gate() is Ok);
        }
    }
}

/// The same for deposit slips, the other way round: of a vault that
/// exists, a redemption of a slip is refused with
/// `ProposalNotResolvedAgainst` exactly when the proposal has not resolved
/// to the other branch.
pub proof fn law_slip_gating(
    s: State,
    vault: Address,
    user: Signer,
    deposit_slip: Address,
    user_underlying_token_account: Address,
)
    requires
        s.inv(),
        s.vaults.contains_key(vault),
    ensures
        !s.lost(vault) <==> s.redeem_deposit(
            vault,
            user,
            deposit_slip,
            user_underlying_token_account,
        ) == Err::<(State, u64), ErrorCode>(ErrorCode::ProposalNotResolvedAgainst),
        !(s.won(vault) && s.lost(vault)),
{
    assert(s.expressions.contains_key(s.vaults[vault].conditional_expression));
    if s.lost(vault) {
        let loaded = s.load_redeem_deposit(vault, user, deposit_slip, user_underlying_token_account);
        if loaded is Ok {
            assert(loaded->Ok_0.gate() is Ok);
        }
    }
}

/// On a vault that won, claims are paid. Where the redeemer's accounts
/// are in order and hold the claims, the redemption succeeds: the vault
/// holds what it takes, and the redeemer's account has room for it. With
/// the law of resolution gating: such a redemption succeeds exactly when
/// the proposal has resolved to the vault's branch.
pub proof fn law_claims_are_paid(
    s: State,
    vault: Address,
    user: Signer,
    user_conditional_token_account: Address,
    user_underlying_token_account: Address,
    amount: u64,
)
    requires
        s.inv(),
        s.load_redeem_claim(
            vault,
            user,
            user_conditional_token_account,
            user_underlying_token_account,
        ) is Ok,
        s.load_redeem_claim(
            vault,
            user,
            user_conditional_token_account,
            user_underlying_token_account,
        )->Ok_0.references() is Ok,
        amount <= s.tokens[user_conditional_token_account].amount,
    ensures
        s.won(vault),
        s.redeem_claim(
            vault,
            user,
            user_conditional_token_account,
            user_underlying_token_account,
            amount,
        ) is Ok,
{
    let records = s.load_redeem_claim(
        vault,
        user,
        user_conditional_token_account,
        user_underlying_token_account,
    )->Ok_0;
    let custody = s.vaults[vault].underlying_token_account;
    let claim = s.vaults[vault].conditional_token_mint;
    let underlying = s.vaults[vault].underlying_token_mint;
    assert(records.gate() is Ok);
    law_claims_backed(s, vault);
    lemma_sum_bound(
        s.token_accounts,
        holding_of(s.tokens, claim),
        user_conditional_token_account,
    );
    lemma_sum_bound_two(
        s.token_accounts,
        holding_of(s.tokens, underlying),
        custody,
        user_underlying_token_account,
    );
    assert(s.mints.contains_key(underlying));
    assert(held(s.tokens, s.token_accounts, underlying) == s.mints[underlying].supply);
    assert(held(s.tokens, s.token_accounts, claim) == s.mints[claim].supply);
}

/// On a vault that lost, deposit slips are paid. Where the depositor's
/// slip and account are in order and the slip holds something, the
/// redemption succeeds and pays all that the slip holds: the vault holds
/// it, and the depositor's account has room for it.
pub proof fn law_slips_are_paid(
    s: State,
    vault: Address,
    user: Signer,
    deposit_slip: Address,
    user_underlying_token_account: Address,
)
    requires
        s.inv(),
        s.load_redeem_deposit(vault, user, deposit_slip, user_underlying_token_account) is Ok,
        s.load_redeem_deposit(
            vault,
            user,
            deposit_slip,
            user_underlying_token_account,
        )->Ok_0.references() is Ok,
        s.slips[deposit_slip].deposited_amount > 0,
    ensures
        s.lost(vault),
        s.redeem_deposit(vault, user, deposit_slip, user_underlying_token_account) is Ok,
        s.redeem_deposit(vault, user, deposit_slip, user_underlying_token_account)->Ok_0.1
            == s.slips[deposit_slip].deposited_amount,
{
    let records = s.load_redeem_deposit(
        vault,
        user,
        deposit_slip,
        user_underlying_token_account,
    )->Ok_0;
    let custody = s.vaults[vault].underlying_token_account;
    let underlying = s.vaults[vault].underlying_token_mint;
    assert(records.gate() is Ok);
    assert(s.lost(vault));
    assert(!s.won(vault));
    assert(claim_payouts(s.log, vault) == 0);
    lemma_sum_bound(s.deposit_slips, slip_of(s.slips, vault), deposit_slip);
    lemma_sum_bound_two(
        s.token_accounts,
        holding_of(s.tokens, underlying),
        custody,
        user_underlying_token_account,
    );
    assert(s.mints.contains_key(underlying));
    assert(held(s.tokens, s.token_accounts, underlying) == s.mints[underlying].supply);
    assert(slipped(s.slips, s.deposit_slips, vault) == deposits(s.log, vault) - slip_payouts(
        s.log,
        vault,
    ));
}

/// No holder and no depositor has a claim on more than the vault holds:
/// what any one account holds of the claim asset of a vault that has not
/// lost, and what any one slip holds on a vault that has not won, is at
/// most what the vault holds in custody.
pub proof fn law_custody_covers(s: State, vault: Address, account: Address, deposit_slip: Address)
    requires
        s.inv(),
        s.vaults.contains_key(vault),
    ensures
        !s.lost(vault) && s.tokens.contains_key(account) && s.tokens[account].mint
            == s.vaults[vault].conditional_token_mint ==> s.tokens[account].amount
            <= s.custody_balance(vault),
        !s.won(vault) && s.slips.contains_key(deposit_slip) && s.slips[deposit_slip].vault == vault
            ==> s.slips[deposit_slip].deposited_amount <= s.custody_balance(vault),
{
    let claim = s.vaults[vault].conditional_token_mint;
    if !s.lost(vault) && s.tokens.contains_key(account) && s.tokens[account].mint == claim {
        law_claims_backed(s, vault);
        lemma_sum_bound(s.token_accounts, holding_of(s.tokens, claim), account);
        assert(held(s.tokens, s.token_accounts, claim) == s.mints[claim].supply);
    }
    if !s.won(vault) && s.slips.contains_key(deposit_slip) && s.slips[deposit_slip].vault == vault {
        assert(claim_payouts(s.log, vault) == 0);
        lemma_sum_bound(s.deposit_slips, slip_of(s.slips, vault), deposit_slip);
        assert(slipped(s.slips, s.deposit_slips, vault) == deposits(s.log, vault) - slip_payouts(
            s.log,
            vault,
        ));
    }
}

/// Symmetry of issue and deposit. A deposit that succeeds adds exactly its
/// amount to what the vault holds in custody, to what the depositor holds
/// of the claim asset, to the claim asset's supply and to the depositor's
/// slip, which starts at nothing if it is new; and it takes exactly its
/// amount from what the depositor holds of the underlying asset.
pub proof fn law_deposit_symmetry(
    s: State,
    vault: Address,
    user: Signer,
    deposit_slip: Address,
    user_underlying_token_account: Address,
    user_conditional_token_account: Address,
    amount: u64,
)
    requires
        s.deposit(
            vault,
            user,
            deposit_slip,
            user_underlying_token_account,
            user_conditional_token_account,
            amount,
        ) is Ok,
    ensures
        ({
            let next = s.deposit(
                vault,
                user,
                deposit_slip,
                user_underlying_token_account,
                user_conditional_token_account,
                amount,
            )->Ok_0;
            let slip_before: int = if s.slips.contains_key(deposit_slip) {
                s.slips[deposit_slip].deposited_amount as int
            } else {
                0
            };
            &&& amount > 0
            &&& next.custody_balance(vault) == s.custody_balance(vault) + amount
            &&& next.tokens[user_conditional_token_account].amount
                == s.tokens[user_conditional_token_account].amount + amount
            &&& next.tokens[user_underlying_token_account].amount
                == s.tokens[user_underlying_token_account].amount - amount
            &&& next.mints[s.vaults[vault].conditional_token_mint].supply
                == s.mints[s.vaults[vault].conditional_token_mint].supply + amount
            &&& next.slips.contains_key(deposit_slip)
            &&& next.slips[deposit_slip].deposited_amount == slip_before + amount
            &&& next.slips[deposit_slip].vault == vault
            &&& next.slips[deposit_slip].user == user.key
        }),
{
    let records = s.load_deposit(
        vault,
        user,
        deposit_slip,
        user_underlying_token_account,
        user_conditional_token_account,
    )->Ok_0;
    assert(records.references() is Ok);
}

/// Terminality of proposals. After a resolution that succeeds the
/// proposal is in the terminal state of the outcome, and every further
/// resolution of it is refused with `InvalidStateTransition`.
pub proof fn law_proposal_terminality(
    s: State,
    proposal: Address,
    outcome: PassOrFail,
    again: PassOrFail,
)
    requires
        s.resolve(proposal, outcome) is Ok,
    ensures
        s.proposals[proposal].state == ProposalState::Pending,
        s.resolve(proposal, outcome)->Ok_0.proposals[proposal].state == outcome.terminal(),
        s.resolve(proposal, outcome)->Ok_0.resolve(proposal, again) == Err::<State, ErrorCode>(
            ErrorCode::InvalidStateTransition,
        ),
{
}

/// The first resolution stands. No call changes a proposal that is no
/// longer pending, and none removes a proposal.
pub proof fn law_resolution_is_permanent(s: State, op: Operation, proposal: Address)
    requires
        s.proposals.contains_key(proposal),
        s.apply(op) is Ok,
    ensures
        s.apply(op)->Ok_0.proposals.contains_key(proposal),
        s.proposals[proposal].state != ProposalState::Pending ==> s.apply(
            op,
        )->Ok_0.proposals[proposal] == s.proposals[proposal],
{
}

/// The first resolution stands, whatever follows.
pub proof fn law_resolution_stands(s: State, history: Seq<Operation>, proposal: Address)
    requires
        s.proposals.contains_key(proposal),
        s.proposals[proposal].state != ProposalState::Pending,
    ensures
        s.after(history).proposals.contains_key(proposal),
        s.after(history).proposals[proposal] == s.proposals[proposal],
    decreases history.len(),
{
    if history.len() > 0 {
        law_resolution_stands(s, history.drop_last(), proposal);
        let before = s.after(history.drop_last());
        if before.apply(history.last()) is Ok {
            law_resolution_is_permanent(before, history.last(), proposal);
        }
    }
}

} // verus!
