use multichain_wallet::token::{token_transfer, TokenAccount, TokenError};
use multichain_wallet::transfer::{
    transfer_token, validate_amount, ErrorCode, TransferError, TransferToken,
};

fn accounts(from_balance: u64, to_balance: u64, authority: u64) -> TransferToken {
    TransferToken {
        from: TokenAccount {
            owner: 7,
            balance: from_balance,
        },
        to: TokenAccount {
            owner: 9,
            balance: to_balance,
        },
        authority,
    }
}

#[test]
fn successful_transfer_moves_exact_amount() {
    let mut accts = accounts(100, 0, 7);
    let r = transfer_token(&mut accts, 30);
    assert_eq!(r, Ok(()));
    assert_eq!(accts.from.balance, 70);
    assert_eq!(accts.to.balance, 30);
    assert_eq!(accts.from.owner, 7);
    assert_eq!(accts.to.owner, 9);
}

#[test]
fn zero_amount_fails_with_invalid_amount_and_changes_nothing() {
    let mut accts = accounts(100, 5, 7);
    let r = transfer_token(&mut accts, 0);
    assert_eq!(r, Err(TransferError::Program(ErrorCode::InvalidAmount)));
    assert_eq!(accts.from.balance, 100);
    assert_eq!(accts.to.balance, 5);
}

#[test]
fn insufficient_balance_fails_and_changes_nothing() {
    let mut accts = accounts(100, 5, 7);
    let r = transfer_token(&mut accts, 150);
    assert_eq!(r, Err(TransferError::Token(TokenError::InsufficientFunds)));
    assert_eq!(accts.from.balance, 100);
    assert_eq!(accts.to.balance, 5);
}

#[test]
fn wrong_authority_fails_and_changes_nothing() {
    let mut accts = accounts(100, 5, 8);
    let r = transfer_token(&mut accts, 30);
    assert_eq!(r, Err(TransferError::Token(TokenError::OwnerMismatch)));
    assert_eq!(accts.from.balance, 100);
    assert_eq!(accts.to.balance, 5);
}

#[test]
fn wrong_authority_fails_whatever_the_amount() {
    // even an amount above the source balance reports the permission
    // failure: the authority is checked first
    let mut accts = accounts(100, 5, 8);
    let r = transfer_token(&mut accts, 150);
    assert_eq!(r, Err(TransferError::Token(TokenError::OwnerMismatch)));
    assert_eq!(accts.from.balance, 100);
    assert_eq!(accts.to.balance, 5);
}

#[test]
fn destination_overflow_fails_and_changes_nothing() {
    let mut accts = accounts(100, u64::MAX - 10, 7);
    let r = transfer_token(&mut accts, 30);
    assert_eq!(r, Err(TransferError::Token(TokenError::Overflow)));
    assert_eq!(accts.from.balance, 100);
    assert_eq!(accts.to.balance, u64::MAX - 10);
}

#[test]
fn repeated_transfer_moves_funds_twice() {
    // no deduplication: the same successful request, run twice, moves the
    // amount twice
    let mut accts = accounts(100, 0, 7);
    assert_eq!(transfer_token(&mut accts, 30), Ok(()));
    let after_once = accts;
    assert_eq!(transfer_token(&mut accts, 30), Ok(()));
    assert_eq!(accts.from.balance, 40);
    assert_eq!(accts.to.balance, 60);
    assert_ne!(accts, after_once);
}

#[test]
fn validate_amount_accepts_positive_amounts() {
    assert_eq!(validate_amount(1), Ok(()));
    assert_eq!(validate_amount(u64::MAX), Ok(()));
}

#[test]
fn validate_amount_rejects_zero() {
    assert_eq!(validate_amount(0), Err(ErrorCode::InvalidAmount));
}

#[test]
fn token_transfer_moves_whole_balance() {
    let mut from = TokenAccount {
        owner: 3,
        balance: 42,
    };
    let mut to = TokenAccount {
        owner: 4,
        balance: 1,
    };
    let r = token_transfer(&mut from, &mut to, 3, 42);
    assert_eq!(r, Ok(()));
    assert_eq!(from.balance, 0);
    assert_eq!(to.balance, 43);
}

#[test]
fn token_transfer_checks_authority_before_balance() {
    let mut from = TokenAccount {
        owner: 3,
        balance: 10,
    };
    let mut to = TokenAccount {
        owner: 4,
        balance: 0,
    };
    let r = token_transfer(&mut from, &mut to, 5, 99);
    assert_eq!(r, Err(TokenError::OwnerMismatch));
    assert_eq!(from.balance, 10);
    assert_eq!(to.balance, 0);
}
