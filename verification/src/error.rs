//! The errors that the engine reports.

use vstd::prelude::*;

verus! {

/// Why an operation was refused. Every operation checks all of its
/// preconditions before it changes anything, so an error means that the
/// state is as it was.
#[derive(Clone, Copy, Debug, PartialEq, Eq, Structural)]
pub enum ErrorCode {
    /// The caller lacks the signature or the role that the operation needs.
    Unauthorized,
    /// A record with this identity exists already.
    AlreadyExists,
    /// The operation refers to a record that does not exist, or to a
    /// deposit slip that holds nothing.
    NotFound,
    /// The proposal has left the pending state and cannot be resolved again.
    InvalidStateTransition,
    /// Claims are redeemable only once the proposal has resolved to the
    /// branch of the vault.
    ProposalNotResolvedInFavor,
    /// Deposit slips are redeemable only once the proposal has resolved to
    /// the other branch.
    ProposalNotResolvedAgainst,
    /// The depositor holds less of the underlying asset than the deposit.
    InsufficientUnderlyingBalance,
    /// The redeemer holds less of the claim asset than the redemption.
    InsufficientClaimBalance,
    /// An account that is debited holds less than the amount.
    InsufficientBalance,
    /// A record that the caller supplied is not the one that another record
    /// refers to.
    MismatchedReference,
    /// A deposit of nothing.
    InvalidAmount,
    /// A balance would no longer fit in 64 bits.
    Overflow,
}

} // verus!
