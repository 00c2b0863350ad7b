//! A model of the delegated token program's balance-transfer operation.
//!
//! The instruction handler does not move funds itself: it forwards the
//! request to an already-deployed token program. That program's contract is
//! what the handler relies on: it verifies the authority's permission over
//! the source account, verifies the balance, and either moves the amount
//! atomically or fails without touching either account. This module states
//! that contract over plain values and proves an implementation of it.

use vstd::prelude::*;

verus! {

/// A token account as the token program sees it: the key of the authority
/// allowed to move its funds, and its balance.
#[derive(Clone, Copy, PartialEq, Eq, Structural, Debug)]
pub struct TokenAccount {
    pub owner: u64,
    pub balance: u64,
}

/// The failures the token program reports. They are defined by that
/// program, not by the instruction, and are surfaced to callers unchanged.
#[derive(Clone, Copy, PartialEq, Eq, Structural, Debug)]
pub enum TokenError {
    /// The given authority has no permission over the source account.
    OwnerMismatch,
    /// The source balance is smaller than the requested amount.
    InsufficientFunds,
    /// The destination balance would exceed the largest representable one.
    Overflow,
}

/// The token program accepts a transfer exactly when the authority owns the
/// source account, the source balance covers the amount, and the
/// destination balance stays representable.
pub open spec fn transfer_accepted(
    from: TokenAccount,
    to: TokenAccount,
    authority: u64,
    amount: u64,
) -> bool {
    &&& authority == from.owner
    &&& amount <= from.balance
    &&& to.balance + amount <= u64::MAX
}

/// Which failure a rejected transfer reports: permission is checked first,
/// then the source balance, then room in the destination.
pub open spec fn transfer_failure(
    from: TokenAccount,
    to: TokenAccount,
    authority: u64,
    amount: u64,
) -> TokenError
    recommends
        !transfer_accepted(from, to, authority, amount),
{
    if authority != from.owner {
        TokenError::OwnerMismatch
    } else if amount > from.balance {
        TokenError::InsufficientFunds
    } else {
        TokenError::Overflow
    }
}

/// The token program's transfer rule: move `amount` from `from` to `to` on
/// behalf of `authority`, or fail and leave both accounts untouched.
pub fn token_transfer(
    from: &mut TokenAccount,
    to: &mut TokenAccount,
    authority: u64,
    amount: u64,
) -> (r: Result<(), TokenError>)
    ensures
        r is Ok <==> transfer_accepted(*old(from), *old(to), authority, amount),
        r is Ok ==> final(from).balance == old(from).balance - amount
            && final(to).balance == old(to).balance + amount,
        r matches Err(e) ==> e == transfer_failure(*old(from), *old(to), authority, amount)
            && *final(from) == *old(from) && *final(to) == *old(to),
        final(from).owner == old(from).owner,
        final(to).owner == old(to).owner,
{
    if authority != from.owner {
        return Err(TokenError::OwnerMismatch);
    }
    if amount > from.balance {
        return Err(TokenError::InsufficientFunds);
    }
    match to.balance.checked_add(amount) {
        None => Err(TokenError::Overflow),
        Some(raised) => {
            from.balance = from.balance - amount;
            to.balance = raised;
            Ok(())
        },
    }
}

} // verus!
