//! End-to-end operation suite: whole token flows against the ledger core,
//! with plain account identifiers and an explicit authorization context.

use donation_token::contract::{AuthContext, Token};
use donation_token::error::TokenError;
use donation_token::events::TokenEvent;
use donation_token::storage_types::TokenMetadata;

fn create_token(admin: u64) -> Token {
    let mut token = Token::new();
    token
        .initialize(admin, 7, "DonationToken".to_string(), "DNT".to_string())
        .unwrap();
    token
}

fn auth(id: u64) -> AuthContext {
    AuthContext { id }
}

#[test]
fn test_donation_and_freeze() {
    let admin: u64 = 1;
    let donor1: u64 = 2;
    let recipient: u64 = 3;
    let mut token = create_token(admin);

    assert!(token.has_administrator());
    assert_eq!(token.read_administrator(), Ok(admin));

    token.mint(auth(admin), donor1, 1000).unwrap();
    assert_eq!(token.balance(donor1), 1000);

    token.transfer(auth(donor1), donor1, recipient, 500).unwrap();
    assert_eq!(token.balance(donor1), 500);
    assert_eq!(token.balance(recipient), 500);

    token.freeze_account(auth(admin), donor1).unwrap();
    let freeze_event_found = token
        .events
        .iter()
        .any(|e| *e == TokenEvent::Freeze { admin, account: donor1 });
    assert!(freeze_event_found, "No matching frz_acct event found");

    token.unfreeze_account(auth(admin), donor1).unwrap();
    let unfreeze_event_found = token
        .events
        .iter()
        .any(|e| *e == TokenEvent::Unfreeze { admin, account: donor1 });
    assert!(unfreeze_event_found, "No matching unfrz_acc event found");

    token.transfer(auth(donor1), donor1, recipient, 100).unwrap();
    assert_eq!(token.balance(donor1), 400);
    assert_eq!(token.balance(recipient), 600);

    assert_eq!(token.get_donation_balance(donor1), 400);
}

#[test]
fn test_frozen_account_transfer() {
    let admin: u64 = 1;
    let donor: u64 = 2;
    let recipient: u64 = 3;
    let mut token = create_token(admin);

    token.mint(auth(admin), donor, 1000).unwrap();
    token.freeze_account(auth(admin), donor).unwrap();
    let r = token.transfer(auth(donor), donor, recipient, 100);
    assert_eq!(r, Err(TokenError::AccountFrozen));
}

#[test]
fn test_insufficient_balance() {
    let admin: u64 = 1;
    let donor: u64 = 2;
    let recipient: u64 = 3;
    let mut token = create_token(admin);

    token.mint(auth(admin), donor, 1000).unwrap();
    let r = token.transfer(auth(donor), donor, recipient, 1001);
    assert_eq!(r, Err(TokenError::InsufficientFunds));
}

#[test]
fn test_already_initialized() {
    let admin: u64 = 1;
    let mut token = create_token(admin);

    let r = token.initialize(admin, 7, "DonationToken".to_string(), "DNT".to_string());
    assert_eq!(r, Err(TokenError::AlreadyInitialized));
}

#[test]
fn test_admin_operations() {
    let admin: u64 = 1;
    let new_admin: u64 = 5;
    let mut token = create_token(admin);

    assert!(token.has_administrator());
    assert_eq!(token.read_administrator(), Ok(admin));

    token.write_administrator(new_admin);
    assert_eq!(token.read_administrator(), Ok(new_admin));

    token.set_admin(auth(new_admin), new_admin).unwrap();
    assert_eq!(token.read_administrator(), Ok(new_admin));

    let set_admin_event_found = token
        .events
        .iter()
        .any(|e| *e == TokenEvent::SetAdmin { admin: new_admin, new_admin });
    assert!(set_admin_event_found, "No matching set_admin event found");
}

#[test]
fn test_allowance_operations() {
    let admin: u64 = 1;
    let donor: u64 = 2;
    let spender: u64 = 4;
    let recipient: u64 = 3;
    let now: u32 = 0;
    let mut token = create_token(admin);

    token.mint(auth(admin), donor, 1000).unwrap();
    assert_eq!(token.balance(donor), 1000);

    let amount: i128 = 300;
    let expiration_ledger: u32 = now + 1000;
    token
        .approve(auth(donor), now, donor, spender, amount, expiration_ledger)
        .unwrap();
    assert_eq!(token.allowance(now, donor, spender), amount);

    let approve_event_found = token.events.iter().any(|e| {
        *e == TokenEvent::Approve { from: donor, spender, amount, expiration_ledger }
    });
    assert!(approve_event_found);

    token
        .transfer_from(auth(spender), now, spender, donor, recipient, 200)
        .unwrap();
    assert_eq!(token.balance(donor), 800);
    assert_eq!(token.balance(recipient), 200);
    assert_eq!(token.allowance(now, donor, spender), 100);
}

#[test]
fn test_burn_operations() {
    let admin: u64 = 1;
    let donor: u64 = 2;
    let spender: u64 = 4;
    let now: u32 = 0;
    let mut token = create_token(admin);

    token.mint(auth(admin), donor, 1000).unwrap();
    assert_eq!(token.balance(donor), 1000);

    token.burn(auth(donor), donor, 300).unwrap();
    assert_eq!(token.balance(donor), 700);

    let amount: i128 = 200;
    let expiration_ledger: u32 = now + 1000;
    token
        .approve(auth(donor), now, donor, spender, amount, expiration_ledger)
        .unwrap();

    token.burn_from(auth(spender), now, spender, donor, 150).unwrap();
    assert_eq!(token.balance(donor), 550);
    assert_eq!(token.allowance(now, donor, spender), 50);

    let direct_burn_found = token
        .events
        .iter()
        .any(|e| *e == TokenEvent::Burn { from: donor, amount: 300 });
    assert!(direct_burn_found);
    let allowance_burn_found = token
        .events
        .iter()
        .any(|e| *e == TokenEvent::Burn { from: donor, amount: 150 });
    assert!(allowance_burn_found);
}

#[test]
fn test_metadata() {
    let admin: u64 = 1;
    let mut token = create_token(admin);

    assert_eq!(token.decimals(), 7);
    assert_eq!(token.name(), "DonationToken");
    assert_eq!(token.symbol(), "DNT");

    token.write_metadata(TokenMetadata {
        decimal: 8,
        name: "UpdatedToken".to_string(),
        symbol: "UTK".to_string(),
    });
    assert_eq!(token.decimals(), 8);
    assert_eq!(token.name(), "UpdatedToken");
    assert_eq!(token.symbol(), "UTK");
}
