//! Concrete checks of the ledger's stated properties: one test per law,
//! one input per error, and the edges the design calls out.

use donation_token::admin::{has_administrator, read_administrator, write_administrator};
use donation_token::allowance::{read_allowance, spend_allowance, write_allowance};
use donation_token::balance::{read_balance, receive_balance, spend_balance};
use donation_token::contract::{check_nonnegative_amount, is_account_frozen, AuthContext, Token};
use donation_token::error::TokenError;
use donation_token::metadata::{read_decimal, read_name, read_symbol};
use donation_token::storage_types::AllowanceValue;

fn auth(id: u64) -> AuthContext {
    AuthContext { id }
}

fn initialized_token(admin: u64) -> Token {
    let mut token = Token::new();
    token
        .initialize(admin, 7, "DonationToken".to_string(), "DNT".to_string())
        .unwrap();
    token
}

#[test]
fn credit_then_debit_restores_balance() {
    let mut token = Token::new();
    receive_balance(&mut token, 9, 250);
    assert_eq!(read_balance(&token, 9), 250);
    receive_balance(&mut token, 9, 40);
    spend_balance(&mut token, 9, 40).unwrap();
    assert_eq!(read_balance(&token, 9), 250);
}

#[test]
fn debit_more_than_held_fails_and_changes_nothing() {
    let mut token = Token::new();
    receive_balance(&mut token, 9, 30);
    let r = spend_balance(&mut token, 9, 31);
    assert_eq!(r, Err(TokenError::InsufficientFunds));
    assert_eq!(read_balance(&token, 9), 30);
    let r2 = spend_balance(&mut token, 10, 1);
    assert_eq!(r2, Err(TokenError::InsufficientFunds));
    assert_eq!(read_balance(&token, 10), 0);
}

#[test]
fn approve_with_past_expiration_is_rejected() {
    let donor: u64 = 2;
    let spender: u64 = 4;
    let now: u32 = 5;
    let mut token = initialized_token(1);
    let r = token.approve(auth(donor), now, donor, spender, 10, 4);
    assert_eq!(r, Err(TokenError::InvalidExpiration));
    assert_eq!(token.allowance(now, donor, spender), 0);
    assert!(token.events.is_empty());
}

#[test]
fn approve_amount_zero_may_carry_any_expiration() {
    let donor: u64 = 2;
    let spender: u64 = 4;
    let now: u32 = 5;
    let mut token = initialized_token(1);
    token.approve(auth(donor), now, donor, spender, 100, now + 10).unwrap();
    token.approve(auth(donor), now, donor, spender, 0, 0).unwrap();
    assert_eq!(token.allowance(now, donor, spender), 0);
}

#[test]
fn approve_at_exactly_current_time_is_accepted() {
    let donor: u64 = 2;
    let spender: u64 = 4;
    let now: u32 = 5;
    let mut token = initialized_token(1);
    token.approve(auth(donor), now, donor, spender, 10, now).unwrap();
    assert_eq!(token.allowance(now, donor, spender), 10);
}

#[test]
fn expired_allowance_reads_zero_until_next_write() {
    let mut token = Token::new();
    write_allowance(&mut token, 0, 2, 4, 50, 10).unwrap();
    let live = read_allowance(&token, 10, 2, 4);
    assert_eq!(live, AllowanceValue { amount: 50, expiration_ledger: 10 });
    // one tick past the expiration: the stored 50 no longer grants anything,
    // but the stored expiration stays visible
    let stale = read_allowance(&token, 11, 2, 4);
    assert_eq!(stale, AllowanceValue { amount: 0, expiration_ledger: 10 });
    let r = spend_allowance(&mut token, 11, 2, 4, 1);
    assert_eq!(r, Err(TokenError::InsufficientAllowance));
    // the next successful write revives the pair
    write_allowance(&mut token, 11, 2, 4, 20, 100).unwrap();
    assert_eq!(read_allowance(&token, 11, 2, 4).amount, 20);
}

#[test]
fn absent_allowance_reads_zero_zero() {
    let token = Token::new();
    let r = read_allowance(&token, 7, 2, 4);
    assert_eq!(r, AllowanceValue { amount: 0, expiration_ledger: 0 });
}

#[test]
fn spend_never_exceeds_effective_allowance() {
    let mut token = Token::new();
    write_allowance(&mut token, 0, 2, 4, 100, 50).unwrap();
    let r = spend_allowance(&mut token, 0, 2, 4, 101);
    assert_eq!(r, Err(TokenError::InsufficientAllowance));
    spend_allowance(&mut token, 0, 2, 4, 100).unwrap();
    let drained = read_allowance(&token, 0, 2, 4);
    assert_eq!(drained, AllowanceValue { amount: 0, expiration_ledger: 50 });
    let r2 = spend_allowance(&mut token, 0, 2, 4, 1);
    assert_eq!(r2, Err(TokenError::InsufficientAllowance));
}

#[test]
fn spend_keeps_expiration_and_other_pairs() {
    let mut token = Token::new();
    write_allowance(&mut token, 0, 2, 4, 100, 50).unwrap();
    write_allowance(&mut token, 0, 2, 5, 70, 60).unwrap();
    spend_allowance(&mut token, 0, 2, 4, 30).unwrap();
    assert_eq!(
        read_allowance(&token, 0, 2, 4),
        AllowanceValue { amount: 70, expiration_ledger: 50 }
    );
    assert_eq!(
        read_allowance(&token, 0, 2, 5),
        AllowanceValue { amount: 70, expiration_ledger: 60 }
    );
}

#[test]
fn frozen_account_blocks_every_outbound_path_but_not_mint() {
    let admin: u64 = 1;
    let frozen_acct: u64 = 2;
    let other: u64 = 3;
    let spender: u64 = 4;
    let now: u32 = 0;
    let mut token = initialized_token(admin);
    token.mint(auth(admin), frozen_acct, 1000).unwrap();
    token
        .approve(auth(frozen_acct), now, frozen_acct, spender, 500, now + 100)
        .unwrap();
    token.freeze_account(auth(admin), frozen_acct).unwrap();
    assert!(is_account_frozen(&token, frozen_acct));

    let t = token.transfer(auth(frozen_acct), frozen_acct, other, 10);
    assert_eq!(t, Err(TokenError::AccountFrozen));
    let b = token.burn(auth(frozen_acct), frozen_acct, 10);
    assert_eq!(b, Err(TokenError::AccountFrozen));
    let tf = token.transfer_from(auth(spender), now, spender, frozen_acct, other, 10);
    assert_eq!(tf, Err(TokenError::AccountFrozen));
    assert_eq!(token.balance(frozen_acct), 1000);

    // the administrative credit path ignores the flag
    token.mint(auth(admin), frozen_acct, 5).unwrap();
    assert_eq!(token.balance(frozen_acct), 1005);

    token.unfreeze_account(auth(admin), frozen_acct).unwrap();
    assert!(!is_account_frozen(&token, frozen_acct));
    token.transfer(auth(frozen_acct), frozen_acct, other, 10).unwrap();
    assert_eq!(token.balance(other), 10);
}

#[test]
fn initialize_twice_keeps_first_administrator() {
    let mut token = Token::new();
    token
        .initialize(1, 7, "DonationToken".to_string(), "DNT".to_string())
        .unwrap();
    let r = token.initialize(9, 2, "Other".to_string(), "OTH".to_string());
    assert_eq!(r, Err(TokenError::AlreadyInitialized));
    assert_eq!(token.read_administrator(), Ok(1));
    assert_eq!(token.decimals(), 7);
}

#[test]
fn initialize_rejects_wide_decimal() {
    let mut token = Token::new();
    let r = token.initialize(1, 256, "DonationToken".to_string(), "DNT".to_string());
    assert_eq!(r, Err(TokenError::DecimalOutOfRange));
    assert!(!has_administrator(&token));
}

#[test]
fn operations_before_initialize_report_not_initialized() {
    let mut token = Token::new();
    assert_eq!(read_administrator(&token), Err(TokenError::NotInitialized));
    assert_eq!(token.mint(auth(1), 2, 10), Err(TokenError::NotInitialized));
    assert_eq!(token.set_admin(auth(1), 2), Err(TokenError::NotInitialized));
    assert_eq!(token.freeze_account(auth(1), 2), Err(TokenError::NotInitialized));
    assert_eq!(token.unfreeze_account(auth(1), 2), Err(TokenError::NotInitialized));
}

#[test]
fn negative_amounts_are_rejected_everywhere() {
    let admin: u64 = 1;
    let donor: u64 = 2;
    let now: u32 = 0;
    let mut token = initialized_token(admin);
    token.mint(auth(admin), donor, 100).unwrap();
    assert_eq!(check_nonnegative_amount(-1), Err(TokenError::NegativeAmount));
    assert_eq!(check_nonnegative_amount(0), Ok(()));
    assert_eq!(token.mint(auth(admin), donor, -1), Err(TokenError::NegativeAmount));
    assert_eq!(
        token.transfer(auth(donor), donor, 3, -1),
        Err(TokenError::NegativeAmount)
    );
    assert_eq!(token.burn(auth(donor), donor, -1), Err(TokenError::NegativeAmount));
    assert_eq!(
        token.approve(auth(donor), now, donor, 4, -1, 10),
        Err(TokenError::NegativeAmount)
    );
    assert_eq!(
        token.transfer_from(auth(4), now, 4, donor, 3, -1),
        Err(TokenError::NegativeAmount)
    );
    assert_eq!(
        token.burn_from(auth(4), now, 4, donor, -1),
        Err(TokenError::NegativeAmount)
    );
    assert_eq!(token.balance(donor), 100);
}

#[test]
fn wrong_identity_is_unauthorized() {
    let admin: u64 = 1;
    let donor: u64 = 2;
    let intruder: u64 = 9;
    let now: u32 = 0;
    let mut token = initialized_token(admin);
    token.mint(auth(admin), donor, 100).unwrap();
    assert_eq!(token.mint(auth(intruder), donor, 1), Err(TokenError::Unauthorized));
    assert_eq!(
        token.transfer(auth(intruder), donor, 3, 1),
        Err(TokenError::Unauthorized)
    );
    assert_eq!(
        token.approve(auth(intruder), now, donor, 4, 1, 10),
        Err(TokenError::Unauthorized)
    );
    assert_eq!(token.set_admin(auth(intruder), intruder), Err(TokenError::Unauthorized));
    assert_eq!(token.balance(donor), 100);
    assert_eq!(token.read_administrator(), Ok(admin));
}

#[test]
fn transfer_to_self_moves_nothing() {
    let admin: u64 = 1;
    let donor: u64 = 2;
    let mut token = initialized_token(admin);
    token.mint(auth(admin), donor, 100).unwrap();
    token.transfer(auth(donor), donor, donor, 60).unwrap();
    assert_eq!(token.balance(donor), 100);
}

#[test]
fn burn_from_respects_allowance() {
    let admin: u64 = 1;
    let donor: u64 = 2;
    let spender: u64 = 4;
    let now: u32 = 0;
    let mut token = initialized_token(admin);
    token.mint(auth(admin), donor, 100).unwrap();
    token.approve(auth(donor), now, donor, spender, 40, now + 10).unwrap();
    assert_eq!(
        token.burn_from(auth(spender), now, spender, donor, 41),
        Err(TokenError::InsufficientAllowance)
    );
    token.burn_from(auth(spender), now, spender, donor, 40).unwrap();
    assert_eq!(token.balance(donor), 60);
    assert_eq!(token.allowance(now, donor, spender), 0);
}

#[test]
fn transfer_from_failure_leaves_allowance_untouched() {
    let admin: u64 = 1;
    let donor: u64 = 2;
    let spender: u64 = 4;
    let now: u32 = 0;
    let mut token = initialized_token(admin);
    token.mint(auth(admin), donor, 10).unwrap();
    token.approve(auth(donor), now, donor, spender, 500, now + 10).unwrap();
    // the allowance covers the request but the balance does not: nothing,
    // not even the allowance, may change
    let r = token.transfer_from(auth(spender), now, spender, donor, 3, 11);
    assert_eq!(r, Err(TokenError::InsufficientFunds));
    assert_eq!(token.allowance(now, donor, spender), 500);
    assert_eq!(token.balance(donor), 10);
    assert_eq!(token.balance(3), 0);
}

#[test]
fn direct_administrator_and_metadata_access() {
    let mut token = Token::new();
    assert!(!has_administrator(&token));
    write_administrator(&mut token, 8);
    assert!(has_administrator(&token));
    assert_eq!(read_administrator(&token), Ok(8));
    token.write_metadata(donation_token::storage_types::TokenMetadata {
        decimal: 2,
        name: "DonationToken".to_string(),
        symbol: "DNT".to_string(),
    });
    assert_eq!(read_decimal(&token), 2);
    assert_eq!(read_name(&token), "DonationToken");
    assert_eq!(read_symbol(&token), "DNT");
}
