use tip_contract::account::is_valid_account_id;

#[test]
fn accepts_ordinary_account_ids() {
    assert!(is_valid_account_id("bob.testnet"));
    assert!(is_valid_account_id("alice.testnet"));
    assert!(is_valid_account_id("aa"));
    assert!(is_valid_account_id("a-a"));
    assert!(is_valid_account_id("a_b-c.d0"));
    assert!(is_valid_account_id("10-4.8-2"));
}

#[test]
fn rejects_bad_lengths() {
    assert!(!is_valid_account_id(""));
    assert!(!is_valid_account_id("a"));
    let longest: String = "a".repeat(64);
    assert!(is_valid_account_id(&longest));
    let too_long: String = "a".repeat(65);
    assert!(!is_valid_account_id(&too_long));
}

#[test]
fn rejects_bad_characters() {
    assert!(!is_valid_account_id("Bob.testnet"));
    assert!(!is_valid_account_id("bob!"));
    assert!(!is_valid_account_id("bob testnet"));
    assert!(!is_valid_account_id("b@b.testnet"));
}

#[test]
fn rejects_misplaced_separators() {
    assert!(!is_valid_account_id("-bob"));
    assert!(!is_valid_account_id("bob-"));
    assert!(!is_valid_account_id(".bob"));
    assert!(!is_valid_account_id("bob."));
    assert!(!is_valid_account_id("bo--b"));
    assert!(!is_valid_account_id("a.-b"));
    assert!(!is_valid_account_id("a..b"));
}
