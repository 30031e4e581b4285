//! Ids, stamps and the status of errors.
use bank_ledger::engine::new_stamp;
use bank_ledger::error::LedgerError;
use bank_ledger::ident::is_well_formed_id;

#[test]
fn well_formed_ids_are_not_empty_and_hold_no_colon_or_space() {
    assert!(is_well_formed_id("abc"));
    assert!(is_well_formed_id("9b2f5c1e-7d43-4a8b-9e21-0c6f3a5d8e47"));
    assert!(is_well_formed_id("h\u{e9}llo"));
    assert!(!is_well_formed_id(""));
    assert!(!is_well_formed_id(":abc"));
    assert!(!is_well_formed_id("a:bc"));
    assert!(!is_well_formed_id("abc:"));
    assert!(!is_well_formed_id("a bc"));
    assert!(!is_well_formed_id(" "));
}

#[test]
fn a_new_stamp_has_a_hyphenated_uuid_and_a_recent_time() {
    let stamp = new_stamp();
    let id: Vec<char> = stamp.operation_id.chars().collect();
    assert_eq!(id.len(), 36);
    for (i, c) in id.iter().enumerate() {
        if i == 8 || i == 13 || i == 18 || i == 23 {
            assert_eq!(*c, '-');
        } else {
            assert!(matches!(*c, '0'..='9' | 'a'..='f'), "{} at {}", c, i);
        }
    }
    assert!(is_well_formed_id(&stamp.operation_id));
    assert!(stamp.tx_time > 1_600_000_000_000);
}

#[test]
fn new_stamps_differ() {
    assert_ne!(new_stamp().operation_id, new_stamp().operation_id);
}

#[test]
fn each_error_has_its_status() {
    assert_eq!(LedgerError::InvalidArgument.status_code(), 400);
    assert_eq!(LedgerError::NotFound.status_code(), 404);
    assert_eq!(LedgerError::InsufficientFunds.status_code(), 409);
    assert_eq!(LedgerError::StoreError.status_code(), 500);
}

#[test]
fn each_error_has_its_name() {
    assert_eq!(LedgerError::InvalidArgument.name(), "invalid argument");
    assert_eq!(LedgerError::NotFound.name(), "not found");
    assert_eq!(LedgerError::InsufficientFunds.name(), "insufficient funds");
    assert_eq!(LedgerError::StoreError.name(), "store error");
}
