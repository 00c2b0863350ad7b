//! The transfer instruction handler.
//!
//! The handler checks that the requested amount is positive, failing with
//! its own `InvalidAmount` code before anything else happens, and otherwise
//! delegates the transfer to the token program, passing that program's
//! failures through unchanged. Either the whole transfer happens or
//! neither balance changes.

use vstd::prelude::*;

use crate::token::{token_transfer, transfer_accepted, transfer_failure, TokenAccount, TokenError};

verus! {

/// The one error code the instruction defines itself.
#[derive(Clone, Copy, PartialEq, Eq, Structural, Debug)]
pub enum ErrorCode {
    /// The requested amount was zero.
    InvalidAmount,
}

/// Everything the instruction can fail with: one of its own codes, or a
/// failure of the delegated token program, surfaced unchanged.
#[derive(Clone, Copy, PartialEq, Eq, Structural, Debug)]
pub enum TransferError {
    Program(ErrorCode),
    Token(TokenError),
}

/// The accounts a transfer works on: the source and destination token
/// accounts and the key of the signing authority. The fourth account
/// reference the instruction receives, the token program itself, only
/// routes the delegated call and carries no data the logic reads.
#[derive(Clone, Copy, PartialEq, Eq, Structural, Debug)]
pub struct TransferToken {
    pub from: TokenAccount,
    pub to: TokenAccount,
    pub authority: u64,
}

/// The instruction succeeds exactly when the amount is positive and the
/// token program accepts the delegated transfer.
pub open spec fn instruction_accepted(accounts: TransferToken, amount: u64) -> bool {
    amount > 0 && transfer_accepted(accounts.from, accounts.to, accounts.authority, amount)
}

/// What the instruction returns: `InvalidAmount` for a zero amount, the
/// token program's own failure where that program rejects the transfer,
/// and success otherwise.
pub open spec fn instruction_result(
    accounts: TransferToken,
    amount: u64,
) -> Result<(), TransferError> {
    if amount == 0 {
        Err(TransferError::Program(ErrorCode::InvalidAmount))
    } else if !transfer_accepted(accounts.from, accounts.to, accounts.authority, amount) {
        Err(TransferError::Token(transfer_failure(
            accounts.from,
            accounts.to,
            accounts.authority,
            amount,
        )))
    } else {
        Ok(())
    }
}

/// How the accounts stand after the instruction: on success the amount has
/// moved from source to destination and nothing else changed; on any
/// failure, local or delegated, the accounts are exactly as they were.
pub open spec fn instruction_effect(accounts: TransferToken, amount: u64) -> TransferToken {
    if instruction_accepted(accounts, amount) {
        TransferToken {
            from: TokenAccount {
                owner: accounts.from.owner,
                balance: (accounts.from.balance - amount) as u64,
            },
            to: TokenAccount {
                owner: accounts.to.owner,
                balance: (accounts.to.balance + amount) as u64,
            },
            authority: accounts.authority,
        }
    } else {
        accounts
    }
}

/// The local validation the handler runs before anything else: the amount
/// must be positive.
pub fn validate_amount(amount: u64) -> (r: Result<(), ErrorCode>)
    ensures
        amount == 0 ==> r == Err::<(), ErrorCode>(ErrorCode::InvalidAmount),
        amount > 0 ==> r is Ok,
{
    if amount == 0 {
        Err(ErrorCode::InvalidAmount)
    } else {
        Ok(())
    }
}

/// The transfer instruction: validate the amount, then delegate the
/// transfer to the token program. A zero amount fails with `InvalidAmount`
/// before the delegated call; a delegated failure is passed through
/// unchanged; in every failure case both balances stay as they were.
pub fn transfer_token(accounts: &mut TransferToken, amount: u64) -> (r: Result<(), TransferError>)
    ensures
        r == instruction_result(*old(accounts), amount),
        *final(accounts) == instruction_effect(*old(accounts), amount),
{
    if let Err(code) = validate_amount(amount) {
        return Err(TransferError::Program(code));
    }
    match token_transfer(&mut accounts.from, &mut accounts.to, accounts.authority, amount) {
        Ok(()) => Ok(()),
        Err(e) => Err(TransferError::Token(e)),
    }
}

/// A zero amount is rejected with the instruction's own `InvalidAmount`
/// code and the delegated transfer never runs: the accounts, whatever they
/// hold, are left exactly as they were.
pub proof fn lemma_zero_amount_rejected(accounts: TransferToken)
    ensures
        instruction_result(accounts, 0) == Err::<(), TransferError>(TransferError::Program(
            ErrorCode::InvalidAmount,
        )),
        instruction_effect(accounts, 0) == accounts,
{
}

/// A positive amount within the source balance, presented by the authority
/// that owns the source and with room in the destination, succeeds and
/// moves exactly that amount: the source balance falls by `amount`, the
/// destination balance rises by `amount`, and nothing else about either
/// account changes.
pub proof fn lemma_successful_transfer(accounts: TransferToken, amount: u64)
    requires
        amount > 0,
        accounts.authority == accounts.from.owner,
        amount <= accounts.from.balance,
        accounts.to.balance + amount <= u64::MAX,
    ensures
        instruction_result(accounts, amount) is Ok,
        instruction_effect(accounts, amount).from.balance == accounts.from.balance - amount,
        instruction_effect(accounts, amount).to.balance == accounts.to.balance + amount,
        instruction_effect(accounts, amount).from.owner == accounts.from.owner,
        instruction_effect(accounts, amount).to.owner == accounts.to.owner,
        instruction_effect(accounts, amount).authority == accounts.authority,
{
}

/// A positive amount larger than the source balance fails, and both
/// balances remain unchanged: the delegated program enforces atomicity.
pub proof fn lemma_insufficient_balance_rejected(accounts: TransferToken, amount: u64)
    requires
        amount > 0,
        amount > accounts.from.balance,
    ensures
        instruction_result(accounts, amount) is Err,
        instruction_effect(accounts, amount) == accounts,
{
}

/// An authority that does not own the source account can never move funds:
/// whatever the amount, the instruction fails and no balance changes.
pub proof fn lemma_wrong_authority_rejected(accounts: TransferToken, amount: u64)
    requires
        accounts.authority != accounts.from.owner,
    ensures
        instruction_result(accounts, amount) is Err,
        instruction_effect(accounts, amount) == accounts,
{
}

/// A successful transfer is not idempotent: running the same accepted
/// request twice moves the funds twice and leaves a different state than
/// running it once. Nothing deduplicates repeated instructions.
pub proof fn lemma_transfer_not_idempotent(accounts: TransferToken, amount: u64)
    requires
        amount > 0,
        accounts.authority == accounts.from.owner,
        2 * amount <= accounts.from.balance,
        accounts.to.balance + 2 * amount <= u64::MAX,
    ensures
        ({
            let once = instruction_effect(accounts, amount);
            let twice = instruction_effect(once, amount);
            &&& instruction_result(accounts, amount) is Ok
            &&& instruction_result(once, amount) is Ok
            &&& twice.from.balance == accounts.from.balance - 2 * amount
            &&& twice.to.balance == accounts.to.balance + 2 * amount
            &&& twice != once
        }),
{
}

} // verus!
