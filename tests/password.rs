use budget_book::key::derive_key;
use budget_book::password::{password_record, verify_password_record};

#[test]
fn record_is_the_password_digest() {
    let record = password_record("open sesame");
    assert_eq!(record.len(), 32);
    assert_eq!(record, derive_key("open sesame"));
}

#[test]
fn setting_same_password_twice_still_verifies() {
    let first = password_record("p");
    let second = password_record("p");
    assert_eq!(first, second);
    assert!(verify_password_record("p", &second));
}

#[test]
fn new_password_invalidates_previous() {
    let stored = password_record("first");
    assert!(verify_password_record("first", &stored));
    let stored = password_record("second");
    assert!(!verify_password_record("first", &stored));
    assert!(verify_password_record("second", &stored));
}

#[test]
fn record_of_other_length_does_not_verify() {
    let mut stored = password_record("p");
    stored.push(0);
    assert!(!verify_password_record("p", &stored));
    assert!(!verify_password_record("p", &[]));
}
