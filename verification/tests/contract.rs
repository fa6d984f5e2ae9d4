use tip_contract::contract::{Contract, TipError};
use tip_contract::host::HostEnv;

fn alice() -> String {
    "alice.testnet".to_string()
}

fn bob() -> String {
    "bob.testnet".to_string()
}

fn fresh_env(account_balance: u128) -> HostEnv {
    HostEnv { account_balance, state_exists: false }
}

fn new_contract(receiver_id: String, tip_amount: u128, env: &HostEnv) -> Contract {
    match Contract::new(receiver_id, tip_amount, env) {
        Ok(c) => c,
        Err(e) => panic!("construction was refused: {:?}", e),
    }
}

#[test]
fn try_send_tip() {
    const AMOUNT_TO_SEND: u128 = 1_000_000_000_000_000_000_000_000;
    let mut env = fresh_env(AMOUNT_TO_SEND);
    let mut contract = new_contract(bob(), AMOUNT_TO_SEND, &env);
    env.mark_initialized();
    contract.register_receiver();
    let transfer = contract.send_tip(&env).unwrap();
    env.apply_transfer(&transfer);
    assert_eq!(contract.get_balance(&env), 0, "Account balance should be liquidated.");
}

#[test]
fn try_get_balance() {
    const AMOUNT_TO_SEND: u128 = 1_000_000_000_000_000_000_000_000;
    let mut env = fresh_env(AMOUNT_TO_SEND);
    let mut contract = new_contract(bob(), AMOUNT_TO_SEND, &env);
    env.mark_initialized();
    contract.register_receiver();
    assert_eq!(
        contract.get_balance(&env),
        AMOUNT_TO_SEND,
        "Account balance should be equal to initial balance."
    );
}

#[test]
fn second_construction_fails() {
    let mut env = fresh_env(100);
    let contract = new_contract(bob(), 10, &env);
    assert_eq!(contract.tip_amount, 10);
    env.mark_initialized();
    assert_eq!(Contract::new(bob(), 10, &env).unwrap_err(), TipError::AlreadyInitialized);
    assert_eq!(Contract::new(alice(), 7, &env).unwrap_err(), TipError::AlreadyInitialized);
}

#[test]
fn invalid_receiver_is_refused() {
    let env = fresh_env(100);
    assert_eq!(Contract::new("Bob".to_string(), 10, &env).unwrap_err(), TipError::InvalidReceiverId);
    assert_eq!(Contract::new("a".to_string(), 10, &env).unwrap_err(), TipError::InvalidReceiverId);
    let mut initialized = fresh_env(100);
    initialized.mark_initialized();
    assert_eq!(
        Contract::new("a..b".to_string(), 10, &initialized).unwrap_err(),
        TipError::InvalidReceiverId
    );
}

#[test]
fn fresh_contract_has_no_registrations() {
    let env = fresh_env(100);
    let contract = new_contract(bob(), 10, &env);
    assert!(!contract.is_registered());
    assert!(contract.registered_receivers.is_empty());
}

#[test]
fn repeated_registration_keeps_one_entry() {
    let env = fresh_env(100);
    let mut contract = new_contract(bob(), 10, &env);
    contract.register_receiver();
    contract.register_receiver();
    contract.register_receiver();
    assert!(contract.is_registered());
    assert_eq!(contract.registered_receivers, vec![bob()]);
    let occurrences = contract.registered_receivers.iter().filter(|r| **r == bob()).count();
    assert_eq!(occurrences, 1);
}

#[test]
fn registering_twice_equals_registering_once() {
    let env = fresh_env(100);
    let mut once = new_contract(bob(), 10, &env);
    let mut twice = new_contract(bob(), 10, &env);
    once.register_receiver();
    twice.register_receiver();
    twice.register_receiver();
    assert_eq!(once.registered_receivers, twice.registered_receivers);
}

#[test]
fn tip_before_registration_is_refused() {
    let env = fresh_env(100);
    let mut contract = new_contract(bob(), 10, &env);
    assert_eq!(contract.send_tip(&env).unwrap_err(), TipError::NotRegistered);
    assert!(!contract.is_registered());
}

#[test]
fn tip_with_insufficient_funds_is_refused() {
    let env = fresh_env(9);
    let mut contract = new_contract(bob(), 10, &env);
    assert_eq!(contract.send_tip(&env).unwrap_err(), TipError::InsufficientFunds);
    contract.register_receiver();
    assert_eq!(contract.send_tip(&env).unwrap_err(), TipError::InsufficientFunds);
}

#[test]
fn tip_moves_the_whole_balance_to_bob() {
    const TIP: u128 = 250;
    let mut env = fresh_env(TIP);
    let mut contract = new_contract("bob".to_string(), TIP, &env);
    env.mark_initialized();
    contract.register_receiver();
    let transfer = contract.send_tip(&env).unwrap();
    assert_eq!(transfer.receiver_id, "bob".to_string());
    assert_eq!(transfer.amount, TIP);
    env.apply_transfer(&transfer);
    assert_eq!(contract.get_balance(&env), 0);
}

#[test]
fn balance_is_reported_before_any_tip() {
    const TIP: u128 = 250;
    let env = fresh_env(TIP);
    let contract = new_contract("bob".to_string(), TIP, &env);
    assert_eq!(contract.get_balance(&env), TIP);
}
