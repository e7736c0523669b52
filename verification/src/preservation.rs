//! Every operation keeps the invariant of the engine's state.

use vstd::prelude::*;
use crate::address::Address;
use crate::history::{lemma_sums_absent, lemma_sums_push};
use crate::model::{claim_payouts, deposits, event_vault, slip_payouts, Event, State};
use crate::state::{DepositSlip, PassOrFail, Signer};
use crate::sums::{
    held, lemma_held_new, lemma_held_nothing, lemma_held_set, lemma_slipped_new,
    lemma_slipped_nothing, lemma_slipped_set, slipped,
};
use crate::token::TokenAccount;

verus! {

/// The custody accounts of two vaults are two accounts, and so are the
/// mints of their claim assets.
pub proof fn lemma_vaults_share_nothing(s: State, v: Address, w: Address)
    requires
        s.vaults_wired(),
        s.vaults.contains_key(v),
        s.vaults.contains_key(w),
        v != w,
    ensures
        s.vaults[v].underlying_token_account != s.vaults[w].underlying_token_account,
        s.vaults[v].conditional_token_mint != s.vaults[w].conditional_token_mint,
{
}

/// An account whose owner is no vault is no custody account.
pub proof fn lemma_not_custody(s: State, account: Address, w: Address)
    requires
        s.vaults_wired(),
        s.vaults.contains_key(w),
        s.tokens.contains_key(account),
        !s.is_custody(account),
    ensures
        s.vaults[w].underlying_token_account != account,
{
}

/// A deposit keeps the invariant.
pub proof fn lemma_deposit_keeps_invariant(
    s: State,
    vault: Address,
    user: Signer,
    deposit_slip: Address,
    user_underlying_token_account: Address,
    user_conditional_token_account: Address,
    amount: u64,
)
    requires
        s.inv(),
        s.deposit(
            vault,
            user,
            deposit_slip,
            user_underlying_token_account,
            user_conditional_token_account,
            amount,
        ) is Ok,
    ensures
        s.deposit(
            vault,
            user,
            deposit_slip,
            user_underlying_token_account,
            user_conditional_token_account,
            amount,
        )->Ok_0.inv(),
{
    let records = s.load_deposit(
        vault,
        user,
        deposit_slip,
        user_underlying_token_account,
        user_conditional_token_account,
    )->Ok_0;
    let after = records.deposited(amount);
    let n = s.store_deposit(after, amount);
    let event = Event::Deposit { vault, user: user.key, amount };
    assert(records.references() is Ok);
    assert(n.log == s.log.push(event));
    assert(n.vaults == s.vaults);
    assert forall|w: Address| #[trigger] n.vaults.contains_key(w) implies {
        &&& n.tokens[n.vaults[w].underlying_token_account].owner == w
        &&& n.tokens[n.vaults[w].underlying_token_account].mint == n.vaults[w].underlying_token_mint
        &&& n.tokens.contains_key(n.vaults[w].underlying_token_account)
        &&& n.mints.contains_key(n.vaults[w].conditional_token_mint)
        &&& n.mints[n.vaults[w].conditional_token_mint].mint_authority == Some(w)
        &&& n.custody_balance(w) == deposits(n.log, w) - claim_payouts(n.log, w) - slip_payouts(
            n.log,
            w,
        )
        &&& n.mints[n.vaults[w].conditional_token_mint].supply == deposits(n.log, w)
            - claim_payouts(n.log, w)
        &&& n.branch(w) == s.branch(w)
        &&& claim_payouts(n.log, w) == claim_payouts(s.log, w)
        &&& slip_payouts(n.log, w) == slip_payouts(s.log, w)
    } by {
        lemma_sums_push(s.log, event, w);
        assert(s.vaults.contains_key(w));
        if w != vault {
            lemma_vaults_share_nothing(s, vault, w);
        }
    }
    assert(n.log_wired()) by {
        assert forall|i: int| 0 <= i < n.log.len() implies n.vaults.contains_key(
            event_vault(#[trigger] n.log[i]),
        ) by {
            if i < s.log.len() {
                assert(n.log[i] == s.log[i]);
            }
        }
    }
    let custody = s.vaults[vault].underlying_token_account;
    let claim = s.vaults[vault].conditional_token_mint;
    let t0 = s.tokens;
    let t1 = t0.insert(custody, t0[custody].with_amount(t0[custody].amount + amount));
    let t2 = t1.insert(
        user_underlying_token_account,
        t0[user_underlying_token_account].with_amount(
            t0[user_underlying_token_account].amount - amount,
        ),
    );
    let t3 = t2.insert(
        user_conditional_token_account,
        t0[user_conditional_token_account].with_amount(
            t0[user_conditional_token_account].amount + amount,
        ),
    );
    assert(n.tokens == t3);
    assert(n.listed()) by {
        if !s.slips.contains_key(deposit_slip) {
            lemma_listed_push(s.deposit_slips, deposit_slip);
        }
    }
    assert(n.wired());
    assert forall|m: Address| #[trigger] n.mints.contains_key(m) implies held(
        n.tokens,
        n.token_accounts,
        m,
    ) == n.mints[m].supply by {
        lemma_held_set(t0, s.token_accounts, custody, t0[custody].amount + amount, m);
        lemma_held_set(
            t1,
            s.token_accounts,
            user_underlying_token_account,
            t0[user_underlying_token_account].amount - amount,
            m,
        );
        lemma_held_set(
            t2,
            s.token_accounts,
            user_conditional_token_account,
            t0[user_conditional_token_account].amount + amount,
            m,
        );
        assert(s.mints.contains_key(m));
    }
    assert forall|w: Address| #[trigger] n.vaults.contains_key(w) implies slipped(
        n.slips,
        n.deposit_slips,
        w,
    ) == deposits(n.log, w) - slip_payouts(n.log, w) by {
        lemma_sums_push(s.log, event, w);
        assert(s.vaults.contains_key(w));
        if s.slips.contains_key(deposit_slip) {
            lemma_slipped_set(
                s.slips,
                s.deposit_slips,
                deposit_slip,
                (s.slips[deposit_slip].deposited_amount + amount) as u64,
                w,
            );
        } else {
            lemma_slipped_new(
                s.slips,
                s.deposit_slips,
                deposit_slip,
                DepositSlip { vault, user: user.key, deposited_amount: amount },
                w,
            );
        }
    }
}

/// A redemption of claims keeps the invariant.
pub proof fn lemma_redeem_claim_keeps_invariant(
    s: State,
    vault: Address,
    user: Signer,
    user_conditional_token_account: Address,
    user_underlying_token_account: Address,
    amount: u64,
)
    requires
        s.inv(),
        s.redeem_claim(
            vault,
            user,
            user_conditional_token_account,
            user_underlying_token_account,
            amount,
        ) is Ok,
    ensures
        s.redeem_claim(
            vault,
            user,
            user_conditional_token_account,
            user_underlying_token_account,
            amount,
        )->Ok_0.inv(),
{
    let records = s.load_redeem_claim(
        vault,
        user,
        user_conditional_token_account,
        user_underlying_token_account,
    )->Ok_0;
    let after = records.redeemed(amount);
    let n = s.store_redeem_claim(after, amount);
    let event = Event::RedeemClaim { vault, user: user.key, amount };
    assert(records.references() is Ok);
    assert(n.log == s.log.push(event));
    assert(n.vaults == s.vaults);
    assert(s.won(vault));
    assert forall|w: Address| #[trigger] n.vaults.contains_key(w) implies {
        &&& n.tokens[n.vaults[w].underlying_token_account].owner == w
        &&& n.tokens[n.vaults[w].underlying_token_account].mint == n.vaults[w].underlying_token_mint
        &&& n.tokens.contains_key(n.vaults[w].underlying_token_account)
        &&& n.mints.contains_key(n.vaults[w].conditional_token_mint)
        &&& n.mints[n.vaults[w].conditional_token_mint].mint_authority == Some(w)
        &&& n.custody_balance(w) == deposits(n.log, w) - claim_payouts(n.log, w) - slip_payouts(
            n.log,
            w,
        )
        &&& n.mints[n.vaults[w].conditional_token_mint].supply == deposits(n.log, w)
            - claim_payouts(n.log, w)
        &&& n.branch(w) == s.branch(w)
        &&& w != vault ==> claim_payouts(n.log, w) == claim_payouts(s.log, w)
        &&& slip_payouts(n.log, w) == slip_payouts(s.log, w)
    } by {
        lemma_sums_push(s.log, event, w);
        assert(s.vaults.contains_key(w));
        if w != vault {
            lemma_vaults_share_nothing(s, vault, w);
        }
    }
    assert(n.log_wired()) by {
        assert forall|i: int| 0 <= i < n.log.len() implies n.vaults.contains_key(
            event_vault(#[trigger] n.log[i]),
        ) by {
            if i < s.log.len() {
                assert(n.log[i] == s.log[i]);
            }
        }
    }
    let custody = s.vaults[vault].underlying_token_account;
    let t0 = s.tokens;
    let t1 = t0.insert(custody, t0[custody].with_amount(t0[custody].amount - amount));
    let t2 = t1.insert(
        user_underlying_token_account,
        t0[user_underlying_token_account].with_amount(
            t0[user_underlying_token_account].amount + amount,
        ),
    );
    let t3 = t2.insert(
        user_conditional_token_account,
        t0[user_conditional_token_account].with_amount(
            t0[user_conditional_token_account].amount - amount,
        ),
    );
    assert(n.tokens == t3);
    assert(n.wired());
    assert forall|m: Address| #[trigger] n.mints.contains_key(m) implies held(
        n.tokens,
        n.token_accounts,
        m,
    ) == n.mints[m].supply by {
        lemma_held_set(t0, s.token_accounts, custody, t0[custody].amount - amount, m);
        lemma_held_set(
            t1,
            s.token_accounts,
            user_underlying_token_account,
            t0[user_underlying_token_account].amount + amount,
            m,
        );
        lemma_held_set(
            t2,
            s.token_accounts,
            user_conditional_token_account,
            t0[user_conditional_token_account].amount - amount,
            m,
        );
        assert(s.mints.contains_key(m));
    }
    assert forall|w: Address| #[trigger] n.vaults.contains_key(w) implies slipped(
        n.slips,
        n.deposit_slips,
        w,
    ) == deposits(n.log, w) - slip_payouts(n.log, w) by {
        lemma_sums_push(s.log, event, w);
        assert(s.vaults.contains_key(w));
    }
}

/// A redemption of a deposit slip keeps the invariant.
pub proof fn lemma_redeem_deposit_keeps_invariant(
    s: State,
    vault: Address,
    user: Signer,
    deposit_slip: Address,
    user_underlying_token_account: Address,
)
    requires
        s.inv(),
        s.redeem_deposit(vault, user, deposit_slip, user_underlying_token_account) is Ok,
    ensures
        s.redeem_deposit(vault, user, deposit_slip, user_underlying_token_account)->Ok_0.0.inv(),
{
    let records = s.load_redeem_deposit(
        vault,
        user,
        deposit_slip,
        user_underlying_token_account,
    )->Ok_0;
    let after = records.redeemed();
    let amount = records.payout();
    let n = s.store_redeem_deposit(after, amount);
    let event = Event::RedeemDeposit { vault, user: user.key, amount };
    assert(records.references() is Ok);
    assert(n.log == s.log.push(event));
    assert(n.vaults == s.vaults);
    assert(n.mints == s.mints);
    assert(s.lost(vault));
    assert forall|w: Address| #[trigger] n.vaults.contains_key(w) implies {
        &&& n.tokens[n.vaults[w].underlying_token_account].owner == w
        &&& n.tokens[n.vaults[w].underlying_token_account].mint == n.vaults[w].underlying_token_mint
        &&& n.tokens.contains_key(n.vaults[w].underlying_token_account)
        &&& n.custody_balance(w) == deposits(n.log, w) - claim_payouts(n.log, w) - slip_payouts(
            n.log,
            w,
        )
        &&& n.mints[n.vaults[w].conditional_token_mint].supply == deposits(n.log, w)
            - claim_payouts(n.log, w)
        &&& n.branch(w) == s.branch(w)
        &&& claim_payouts(n.log, w) == claim_payouts(s.log, w)
        &&& w != vault ==> slip_payouts(n.log, w) == slip_payouts(s.log, w)
    } by {
        lemma_sums_push(s.log, event, w);
        assert(s.vaults.contains_key(w));
        if w != vault {
            lemma_vaults_share_nothing(s, vault, w);
        }
    }
    assert(n.log_wired()) by {
        assert forall|i: int| 0 <= i < n.log.len() implies n.vaults.contains_key(
            event_vault(#[trigger] n.log[i]),
        ) by {
            if i < s.log.len() {
                assert(n.log[i] == s.log[i]);
            }
        }
    }
    let custody = s.vaults[vault].underlying_token_account;
    let t0 = s.tokens;
    let t1 = t0.insert(custody, t0[custody].with_amount(t0[custody].amount - amount));
    let t2 = t1.insert(
        user_underlying_token_account,
        t0[user_underlying_token_account].with_amount(
            t0[user_underlying_token_account].amount + amount,
        ),
    );
    assert(n.tokens == t2);
    assert(n.wired());
    assert forall|m: Address| #[trigger] n.mints.contains_key(m) implies held(
        n.tokens,
        n.token_accounts,
        m,
    ) == n.mints[m].supply by {
        lemma_held_set(t0, s.token_accounts, custody, t0[custody].amount - amount, m);
        lemma_held_set(
            t1,
            s.token_accounts,
            user_underlying_token_account,
            t0[user_underlying_token_account].amount + amount,
            m,
        );
    }
    assert forall|w: Address| #[trigger] n.vaults.contains_key(w) implies slipped(
        n.slips,
        n.deposit_slips,
        w,
    ) == deposits(n.log, w) - slip_payouts(n.log, w) by {
        lemma_sums_push(s.log, event, w);
        assert(s.vaults.contains_key(w));
        lemma_slipped_set(s.slips, s.deposit_slips, deposit_slip, 0, w);
    }
}

/// The admission of a member keeps the invariant.
pub proof fn lemma_add_member_keeps_invariant(s: State, authorized_by: Signer, member: Address)
    requires
        s.inv(),
        s.add_member(authorized_by, member) is Ok,
    ensures
        s.add_member(authorized_by, member)->Ok_0.inv(),
{
    let n = s.add_member(authorized_by, member)->Ok_0;
    assert forall|w: Address| #[trigger] n.vaults.contains_key(w) implies n.branch(w) == s.branch(
        w,
    ) by {}
}

/// The creation of a proposal keeps the invariant.
pub proof fn lemma_create_proposal_keeps_invariant(s: State, proposal: Address, initializer: Signer)
    requires
        s.inv(),
        s.create_proposal(proposal, initializer) is Ok,
    ensures
        s.create_proposal(proposal, initializer)->Ok_0.inv(),
{
    let n = s.create_proposal(proposal, initializer)->Ok_0;
    assert forall|w: Address| #[trigger] n.vaults.contains_key(w) implies n.branch(w) == s.branch(
        w,
    ) by {
        assert(s.vaults.contains_key(w));
        assert(s.expressions.contains_key(s.vaults[w].conditional_expression));
    }
}

/// The resolution of a proposal keeps the invariant.
pub proof fn lemma_resolve_keeps_invariant(s: State, proposal: Address, outcome: PassOrFail)
    requires
        s.inv(),
        s.resolve(proposal, outcome) is Ok,
    ensures
        s.resolve(proposal, outcome)->Ok_0.inv(),
{
    let n = s.resolve(proposal, outcome)->Ok_0;
    assert forall|w: Address| #[trigger] n.vaults.contains_key(w) implies {
        &&& claim_payouts(n.log, w) > 0 ==> n.won(w)
        &&& slip_payouts(n.log, w) > 0 ==> n.lost(w)
    } by {
        assert(s.vaults.contains_key(w));
        assert(s.expressions.contains_key(s.vaults[w].conditional_expression));
        if s.expressions[s.vaults[w].conditional_expression].proposal == proposal {
            assert(!s.won(w));
            assert(!s.lost(w));
        } else {
            assert(n.branch(w) == s.branch(w));
        }
    }
}

/// The creation of a branch keeps the invariant.
pub proof fn lemma_create_conditional_expression_keeps_invariant(
    s: State,
    conditional_expression: Address,
    proposal: Address,
    pass_or_fail: PassOrFail,
    initializer: Signer,
)
    requires
        s.inv(),
        s.create_conditional_expression(conditional_expression, proposal, pass_or_fail, initializer)
            is Ok,
    ensures
        s.create_conditional_expression(
            conditional_expression,
            proposal,
            pass_or_fail,
            initializer,
        )->Ok_0.inv(),
{
    let n = s.create_conditional_expression(
        conditional_expression,
        proposal,
        pass_or_fail,
        initializer,
    )->Ok_0;
    assert forall|w: Address| #[trigger] n.vaults.contains_key(w) implies n.branch(w) == s.branch(
        w,
    ) by {
        assert(s.vaults.contains_key(w));
    }
}

/// The creation of a vault keeps the invariant.
pub proof fn lemma_create_vault_keeps_invariant(
    s: State,
    vault: Address,
    conditional_expression: Address,
    underlying_token_mint: Address,
    vault_underlying_token_account: Address,
    conditional_token_mint: Address,
    initializer: Signer,
)
    requires
        s.inv(),
        s.create_vault(
            vault,
            conditional_expression,
            underlying_token_mint,
            vault_underlying_token_account,
            conditional_token_mint,
            initializer,
        ) is Ok,
    ensures
        s.create_vault(
            vault,
            conditional_expression,
            underlying_token_mint,
            vault_underlying_token_account,
            conditional_token_mint,
            initializer,
        )->Ok_0.inv(),
{
    let n = s.create_vault(
        vault,
        conditional_expression,
        underlying_token_mint,
        vault_underlying_token_account,
        conditional_token_mint,
        initializer,
    )->Ok_0;
    assert(n.log == s.log);
    assert forall|i: int| 0 <= i < s.log.len() implies event_vault(#[trigger] s.log[i])
        != vault by {}
    lemma_sums_absent(s.log, vault);
    assert forall|w: Address| #[trigger] n.vaults.contains_key(w) && w != vault implies {
        &&& s.vaults.contains_key(w)
        &&& n.vaults[w] == s.vaults[w]
        &&& n.tokens[n.vaults[w].underlying_token_account]
            == s.tokens[s.vaults[w].underlying_token_account]
        &&& n.mints[n.vaults[w].conditional_token_mint]
            == s.mints[s.vaults[w].conditional_token_mint]
        &&& n.branch(w) == s.branch(w)
    } by {}
    assert(n.log_wired()) by {
        assert forall|i: int| 0 <= i < n.log.len() implies n.vaults.contains_key(
            event_vault(#[trigger] n.log[i]),
        ) by {
            assert(s.vaults.contains_key(event_vault(s.log[i])));
        }
    }
    assert(n.listed()) by {
        lemma_listed_push(s.token_accounts, vault_underlying_token_account);
    }
    assert(n.wired());
    let account = TokenAccount { mint: underlying_token_mint, owner: vault, amount: 0 };
    assert forall|m: Address| #[trigger] n.mints.contains_key(m) implies held(
        n.tokens,
        n.token_accounts,
        m,
    ) == n.mints[m].supply by {
        lemma_held_new(s.tokens, s.token_accounts, vault_underlying_token_account, account, m);
        if m == conditional_token_mint {
            lemma_held_nothing(s.tokens, s.token_accounts, m);
        }
    }
    assert forall|w: Address| #[trigger] n.vaults.contains_key(w) implies slipped(
        n.slips,
        n.deposit_slips,
        w,
    ) == deposits(n.log, w) - slip_payouts(n.log, w) by {
        if w == vault {
            lemma_slipped_nothing(s.slips, s.deposit_slips, w);
        }
    }
}

/// The creation of a slip keeps the invariant.
pub proof fn lemma_initialize_deposit_slip_keeps_invariant(
    s: State,
    deposit_slip: Address,
    vault: Address,
    user: Address,
    initializer: Signer,
)
    requires
        s.inv(),
        s.initialize_deposit_slip(deposit_slip, vault, user, initializer) is Ok,
    ensures
        s.initialize_deposit_slip(deposit_slip, vault, user, initializer)->Ok_0.inv(),
{
    let n = s.initialize_deposit_slip(deposit_slip, vault, user, initializer)->Ok_0;
    assert forall|w: Address| #[trigger] n.vaults.contains_key(w) implies n.branch(w) == s.branch(
        w,
    ) by {}
    assert(n.listed()) by {
        lemma_listed_push(s.deposit_slips, deposit_slip);
    }
    assert(n.wired());
    assert forall|w: Address| #[trigger] n.vaults.contains_key(w) implies slipped(
        n.slips,
        n.deposit_slips,
        w,
    ) == deposits(n.log, w) - slip_payouts(n.log, w) by {
        lemma_slipped_new(
            s.slips,
            s.deposit_slips,
            deposit_slip,
            DepositSlip { vault, user, deposited_amount: 0 },
            w,
        );
    }
}

/// The creation of an asset keeps the invariant.
pub proof fn lemma_create_mint_keeps_invariant(
    s: State,
    mint: Address,
    authority: Address,
    decimals: u8,
)
    requires
        s.inv(),
        s.create_mint(mint, authority, decimals) is Ok,
    ensures
        s.create_mint(mint, authority, decimals)->Ok_0.inv(),
{
    let n = s.create_mint(mint, authority, decimals)->Ok_0;
    assert forall|w: Address| #[trigger] n.vaults.contains_key(w) implies {
        &&& n.branch(w) == s.branch(w)
        &&& n.mints[n.vaults[w].conditional_token_mint]
            == s.mints[s.vaults[w].conditional_token_mint]
    } by {
        assert(s.vaults.contains_key(w));
    }
    assert(n.wired());
    assert forall|m: Address| #[trigger] n.mints.contains_key(m) implies held(
        n.tokens,
        n.token_accounts,
        m,
    ) == n.mints[m].supply by {
        if m == mint {
            lemma_held_nothing(s.tokens, s.token_accounts, m);
        }
    }
}

/// The creation of a token account keeps the invariant.
pub proof fn lemma_create_token_account_keeps_invariant(
    s: State,
    account: Address,
    mint: Address,
    owner: Address,
)
    requires
        s.inv(),
        s.create_token_account(account, mint, owner) is Ok,
    ensures
        s.create_token_account(account, mint, owner)->Ok_0.inv(),
{
    let n = s.create_token_account(account, mint, owner)->Ok_0;
    assert forall|w: Address| #[trigger] n.vaults.contains_key(w) implies {
        &&& n.branch(w) == s.branch(w)
        &&& n.tokens[n.vaults[w].underlying_token_account]
            == s.tokens[s.vaults[w].underlying_token_account]
    } by {
        assert(s.vaults.contains_key(w));
    }
    assert(n.listed()) by {
        lemma_listed_push(s.token_accounts, account);
    }
    assert(n.wired());
    assert forall|m: Address| #[trigger] n.mints.contains_key(m) implies held(
        n.tokens,
        n.token_accounts,
        m,
    ) == n.mints[m].supply by {
        lemma_held_new(
            s.tokens,
            s.token_accounts,
            account,
            TokenAccount { mint, owner, amount: 0 },
            m,
        );
    }
}

/// An issue of an asset keeps the invariant.
pub proof fn lemma_mint_to_keeps_invariant(
    s: State,
    mint: Address,
    to: Address,
    authority: Signer,
    amount: u64,
)
    requires
        s.inv(),
        s.mint_to(mint, to, authority, amount) is Ok,
    ensures
        s.mint_to(mint, to, authority, amount)->Ok_0.inv(),
{
    let n = s.mint_to(mint, to, authority, amount)->Ok_0;
    assert forall|w: Address| #[trigger] n.vaults.contains_key(w) implies {
        &&& n.branch(w) == s.branch(w)
        &&& n.tokens[n.vaults[w].underlying_token_account]
            == s.tokens[s.vaults[w].underlying_token_account]
        &&& n.mints[n.vaults[w].conditional_token_mint]
            == s.mints[s.vaults[w].conditional_token_mint]
    } by {
        assert(s.vaults.contains_key(w));
        lemma_not_custody(s, to, w);
    }
    assert(n.wired());
    assert forall|m: Address| #[trigger] n.mints.contains_key(m) implies held(
        n.tokens,
        n.token_accounts,
        m,
    ) == n.mints[m].supply by {
        lemma_held_set(s.tokens, s.token_accounts, to, s.tokens[to].amount + amount, m);
    }
}

/// A transfer keeps the invariant.
pub proof fn lemma_transfer_keeps_invariant(
    s: State,
    from: Address,
    to: Address,
    authority: Signer,
    amount: u64,
)
    requires
        s.inv(),
        s.transfer(from, to, authority, amount) is Ok,
    ensures
        s.transfer(from, to, authority, amount)->Ok_0.inv(),
{
    let n = s.transfer(from, to, authority, amount)->Ok_0;
    assert forall|w: Address| #[trigger] n.vaults.contains_key(w) implies {
        &&& n.branch(w) == s.branch(w)
        &&& n.tokens[n.vaults[w].underlying_token_account]
            == s.tokens[s.vaults[w].underlying_token_account]
    } by {
        assert(s.vaults.contains_key(w));
        lemma_not_custody(s, to, w);
    }
    assert(n.wired());
    let t1 = s.tokens.insert(from, s.tokens[from].with_amount(s.tokens[from].amount - amount));
    assert(n.tokens == t1.insert(to, s.tokens[to].with_amount(s.tokens[to].amount + amount)));
    assert forall|m: Address| #[trigger] n.mints.contains_key(m) implies held(
        n.tokens,
        n.token_accounts,
        m,
    ) == n.mints[m].supply by {
        lemma_held_set(s.tokens, s.token_accounts, from, s.tokens[from].amount - amount, m);
        lemma_held_set(t1, s.token_accounts, to, s.tokens[to].amount + amount, m);
    }
}

/// A list without duplicates stays one when an address that is not on it
/// is put at its end, and then lists that address besides.
pub proof fn lemma_listed_push(listed: Seq<Address>, key: Address)
    requires
        listed.no_duplicates(),
        !listed.contains(key),
    ensures
        listed.push(key).no_duplicates(),
        forall|a: Address| #[trigger] listed.push(key).contains(a) <==> listed.contains(a) || a == key,
{
    let after = listed.push(key);
    assert forall|i: int, j: int| 0 <= i < after.len() && 0 <= j < after.len() && i != j implies after[i]
        != after[j] by {
        if i < listed.len() {
            assert(listed.contains(listed[i]));
        }
        if j < listed.len() {
            assert(listed.contains(listed[j]));
        }
    }
    assert forall|a: Address| #[trigger] after.contains(a) <==> listed.contains(a) || a == key by {
        if after.contains(a) {
            let i = choose|i: int| 0 <= i < after.len() && after[i] == a;
            if i < listed.len() {
                assert(listed[i] == a);
            }
        }
        if listed.contains(a) {
            let i = choose|i: int| 0 <= i < listed.len() && listed[i] == a;
            assert(after[i] == a);
        }
        if a == key {
            assert(after[listed.len() as int] == a);
        }
    }
}

} // verus!
