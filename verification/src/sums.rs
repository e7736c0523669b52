//! Sums over a list of addresses, for the balances that the engine keeps.

use vstd::prelude::*;
use crate::address::Address;
use crate::state::DepositSlip;
use crate::token::TokenAccount;

verus! {

/// The sum of the weights of the listed addresses.
pub open spec fn sum_over(listed: Seq<Address>, weight: spec_fn(Address) -> nat) -> nat
    decreases listed.len(),
{
    if listed.len() == 0 {
        0
    } else {
        sum_over(listed.drop_last(), weight) + weight(listed.last())
    }
}

/// What the account at an address holds of the asset `mint`.
pub open spec fn holding_of(tokens: Map<Address, TokenAccount>, mint: Address) -> spec_fn(
    Address,
) -> nat {
    |a: Address|
        if tokens.contains_key(a) && tokens[a].mint == mint {
            tokens[a].amount as nat
        } else {
            0
        }
}

/// What the slip at an address holds on `vault`.
pub open spec fn slip_of(slips: Map<Address, DepositSlip>, vault: Address) -> spec_fn(
    Address,
) -> nat {
    |d: Address|
        if slips.contains_key(d) && slips[d].vault == vault {
            slips[d].deposited_amount as nat
        } else {
            0
        }
}

/// What the listed token accounts hold of the asset `mint`, all together.
pub open spec fn held(tokens: Map<Address, TokenAccount>, listed: Seq<Address>, mint: Address) -> nat {
    sum_over(listed, holding_of(tokens, mint))
}

/// What the listed slips hold on `vault`, all together.
pub open spec fn slipped(slips: Map<Address, DepositSlip>, listed: Seq<Address>, vault: Address) -> nat {
    sum_over(listed, slip_of(slips, vault))
}

pub proof fn lemma_sum_push(listed: Seq<Address>, key: Address, weight: spec_fn(Address) -> nat)
    ensures
        sum_over(listed.push(key), weight) == sum_over(listed, weight) + weight(key),
{
    assert(listed.push(key).drop_last() =~= listed);
}

/// Weights that agree on the listed addresses have the same sum.
pub proof fn lemma_sum_agree(
    listed: Seq<Address>,
    before: spec_fn(Address) -> nat,
    after: spec_fn(Address) -> nat,
)
    requires
        forall|i: int| 0 <= i < listed.len() ==> before(#[trigger] listed[i]) == after(listed[i]),
    ensures
        sum_over(listed, before) == sum_over(listed, after),
    decreases listed.len(),
{
    if listed.len() > 0 {
        let front = listed.drop_last();
        assert forall|i: int| 0 <= i < front.len() implies before(#[trigger] front[i]) == after(
            front[i],
        ) by {
            assert(front[i] == listed[i]);
        }
        lemma_sum_agree(front, before, after);
        assert(listed.last() == listed[listed.len() - 1]);
    }
}

/// Where the weight of one listed address changes, the sum changes by as
/// much.
pub proof fn lemma_sum_change(
    listed: Seq<Address>,
    before: spec_fn(Address) -> nat,
    after: spec_fn(Address) -> nat,
    key: Address,
)
    requires
        listed.no_duplicates(),
        listed.contains(key),
        forall|a: Address| a != key ==> #[trigger] before(a) == after(a),
    ensures
        sum_over(listed, after) + before(key) == sum_over(listed, before) + after(key),
    decreases listed.len(),
{
    let front = listed.drop_last();
    let last = listed.last();
    assert(listed.len() > 0);
    assert(last == listed[listed.len() - 1]);
    assert forall|i: int, j: int| 0 <= i < front.len() && 0 <= j < front.len() && i != j implies front[i]
        != front[j] by {
        assert(front[i] == listed[i] && front[j] == listed[j]);
    }
    if last == key {
        assert forall|i: int| 0 <= i < front.len() implies before(#[trigger] front[i]) == after(
            front[i],
        ) by {
            assert(front[i] == listed[i]);
            assert(listed[i] != listed[listed.len() - 1]);
        }
        lemma_sum_agree(front, before, after);
    } else {
        let i = choose|i: int| 0 <= i < listed.len() && listed[i] == key;
        assert(front[i] == key);
        lemma_sum_change(front, before, after, key);
    }
}

/// The weight of a listed address is at most the sum.
pub proof fn lemma_sum_bound(listed: Seq<Address>, weight: spec_fn(Address) -> nat, key: Address)
    requires
        listed.contains(key),
    ensures
        weight(key) <= sum_over(listed, weight),
    decreases listed.len(),
{
    let front = listed.drop_last();
    assert(listed.len() > 0);
    assert(listed.last() == listed[listed.len() - 1]);
    if listed.last() != key {
        let i = choose|i: int| 0 <= i < listed.len() && listed[i] == key;
        assert(front[i] == key);
        lemma_sum_bound(front, weight, key);
    }
}

/// The weights of two listed addresses are together at most the sum.
pub proof fn lemma_sum_bound_two(
    listed: Seq<Address>,
    weight: spec_fn(Address) -> nat,
    one: Address,
    other: Address,
)
    requires
        listed.contains(one),
        listed.contains(other),
        one != other,
    ensures
        weight(one) + weight(other) <= sum_over(listed, weight),
    decreases listed.len(),
{
    let front = listed.drop_last();
    assert(listed.len() > 0);
    assert(listed.last() == listed[listed.len() - 1]);
    let i = choose|i: int| 0 <= i < listed.len() && listed[i] == one;
    let j = choose|j: int| 0 <= j < listed.len() && listed[j] == other;
    if listed.last() == one {
        assert(front[j] == other);
        lemma_sum_bound(front, weight, other);
    } else if listed.last() == other {
        assert(front[i] == one);
        lemma_sum_bound(front, weight, one);
    } else {
        assert(front[i] == one);
        assert(front[j] == other);
        lemma_sum_bound_two(front, weight, one, other);
    }
}

/// Where every listed address weighs nothing, the sum is nothing.
pub proof fn lemma_sum_nothing(listed: Seq<Address>, weight: spec_fn(Address) -> nat)
    requires
        forall|i: int| 0 <= i < listed.len() ==> weight(#[trigger] listed[i]) == 0,
    ensures
        sum_over(listed, weight) == 0,
    decreases listed.len(),
{
    if listed.len() > 0 {
        let front = listed.drop_last();
        assert forall|i: int| 0 <= i < front.len() implies weight(#[trigger] front[i]) == 0 by {
            assert(front[i] == listed[i]);
        }
        lemma_sum_nothing(front, weight);
        assert(listed.last() == listed[listed.len() - 1]);
    }
}

/// Where the amount of one listed token account is set, what is held of
/// its asset changes by the difference, and what is held of every other
/// asset stays.
pub proof fn lemma_held_set(
    tokens: Map<Address, TokenAccount>,
    listed: Seq<Address>,
    key: Address,
    amount: int,
    mint: Address,
)
    requires
        listed.no_duplicates(),
        listed.contains(key),
        tokens.contains_key(key),
        0 <= amount <= u64::MAX,
    ensures
        held(tokens.insert(key, tokens[key].with_amount(amount)), listed, mint) == held(
            tokens,
            listed,
            mint,
        ) + if tokens[key].mint == mint {
            amount - tokens[key].amount
        } else {
            0
        },
{
    let after = tokens.insert(key, tokens[key].with_amount(amount));
    lemma_sum_change(listed, holding_of(tokens, mint), holding_of(after, mint), key);
}

/// A new token account adds what it holds to what is held of its asset.
pub proof fn lemma_held_new(
    tokens: Map<Address, TokenAccount>,
    listed: Seq<Address>,
    key: Address,
    account: TokenAccount,
    mint: Address,
)
    requires
        !listed.contains(key),
    ensures
        held(tokens.insert(key, account), listed.push(key), mint) == held(tokens, listed, mint)
            + if account.mint == mint {
            account.amount as nat
        } else {
            0
        },
{
    let after = tokens.insert(key, account);
    lemma_sum_push(listed, key, holding_of(after, mint));
    assert forall|i: int| 0 <= i < listed.len() implies holding_of(tokens, mint)(
        #[trigger] listed[i],
    ) == holding_of(after, mint)(listed[i]) by {
        assert(listed.contains(listed[i]));
    }
    lemma_sum_agree(listed, holding_of(tokens, mint), holding_of(after, mint));
}

/// Of an asset that no token account holds, nothing is held.
pub proof fn lemma_held_nothing(
    tokens: Map<Address, TokenAccount>,
    listed: Seq<Address>,
    mint: Address,
)
    requires
        forall|a: Address| #[trigger] tokens.contains_key(a) ==> tokens[a].mint != mint,
    ensures
        held(tokens, listed, mint) == 0,
{
    lemma_sum_nothing(listed, holding_of(tokens, mint));
}

/// Where the amount of one listed slip is set, what the slips of its
/// vault hold changes by the difference, and what the slips of every
/// other vault hold stays.
pub proof fn lemma_slipped_set(
    slips: Map<Address, DepositSlip>,
    listed: Seq<Address>,
    key: Address,
    amount: u64,
    vault: Address,
)
    requires
        listed.no_duplicates(),
        listed.contains(key),
        slips.contains_key(key),
    ensures
        slipped(
            slips.insert(key, DepositSlip { deposited_amount: amount, ..slips[key] }),
            listed,
            vault,
        ) == slipped(slips, listed, vault) + if slips[key].vault == vault {
            amount - slips[key].deposited_amount
        } else {
            0
        },
{
    let after = slips.insert(key, DepositSlip { deposited_amount: amount, ..slips[key] });
    lemma_sum_change(listed, slip_of(slips, vault), slip_of(after, vault), key);
}

/// A new slip adds what it holds to what the slips of its vault hold.
pub proof fn lemma_slipped_new(
    slips: Map<Address, DepositSlip>,
    listed: Seq<Address>,
    key: Address,
    slip: DepositSlip,
    vault: Address,
)
    requires
        !listed.contains(key),
    ensures
        slipped(slips.insert(key, slip), listed.push(key), vault) == slipped(slips, listed, vault)
            + if slip.vault == vault {
            slip.deposited_amount as nat
        } else {
            0
        },
{
    let after = slips.insert(key, slip);
    lemma_sum_push(listed, key, slip_of(after, vault));
    assert forall|i: int| 0 <= i < listed.len() implies slip_of(slips, vault)(
        #[trigger] listed[i],
    ) == slip_of(after, vault)(listed[i]) by {
        assert(listed.contains(listed[i]));
    }
    lemma_sum_agree(listed, slip_of(slips, vault), slip_of(after, vault));
}

/// On a vault that no slip is on, the slips hold nothing.
pub proof fn lemma_slipped_nothing(
    slips: Map<Address, DepositSlip>,
    listed: Seq<Address>,
    vault: Address,
)
    requires
        forall|d: Address| #[trigger] slips.contains_key(d) ==> slips[d].vault != vault,
    ensures
        slipped(slips, listed, vault) == 0,
{
    lemma_sum_nothing(listed, slip_of(slips, vault));
}

} // verus!
