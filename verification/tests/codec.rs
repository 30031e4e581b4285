//! Entities and the documents that hold them.
use bank_ledger::codec::{
    account_from, amount_field, balance_field, decode_account, decode_operation, encode_account,
    encode_operation, id_field, id_from_value, kind_field, kind_from_value, kind_name,
    source_field, target_field, time_field, time_to_value, AccountSource,
};
use bank_ledger::document::{Document, Field, Value};
use bank_ledger::entity::{Account, Operation, OperationType};

fn keyword(text: &str) -> Value {
    Value::Keyword(text.to_string())
}

fn account(id: &str, balance: u64) -> Account {
    Account { id: id.to_string(), balance }
}

fn operation(kind: OperationType, target: Option<&str>, tx_time: Option<i64>) -> Operation {
    Operation {
        id: "9b2f5c1e-7d43-4a8b-9e21-0c6f3a5d8e47".to_string(),
        kind,
        amount: 40,
        source_account_id: "a1".to_string(),
        target_account_id: target.map(|t| t.to_string()),
        tx_time,
    }
}

fn operation_document() -> Document {
    let mut doc = Document::new();
    doc.set(":crux.db/id", keyword(":op"));
    doc.set(":account-operation/type", keyword(":operation-type/deposit"));
    doc.set(":account-operation/amount", Value::UInt(7));
    doc.set(":account-operation/source-account-id", keyword(":acc"));
    doc
}

#[test]
fn field_names_are_fixed() {
    assert_eq!(id_field(), ":crux.db/id");
    assert_eq!(balance_field(), ":account/amount");
    assert_eq!(kind_field(), ":account-operation/type");
    assert_eq!(amount_field(), ":account-operation/amount");
    assert_eq!(source_field(), ":account-operation/source-account-id");
    assert_eq!(target_field(), ":account-operation/target-account-id");
    assert_eq!(time_field(), ":tx/tx-time");
}

#[test]
fn kind_names_are_fixed() {
    assert_eq!(kind_name(OperationType::Create), ":operation-type/create");
    assert_eq!(kind_name(OperationType::Deposit), ":operation-type/deposit");
    assert_eq!(kind_name(OperationType::Withdraw), ":operation-type/withdraw");
    assert_eq!(kind_name(OperationType::Transfer), ":operation-type/transfer");
}

#[test]
fn an_account_is_encoded_field_by_field() {
    let doc = encode_account(&account("abc", 100));
    assert_eq!(
        doc.fields,
        vec![
            Field { key: ":crux.db/id".to_string(), value: keyword(":abc") },
            Field { key: ":account/amount".to_string(), value: Value::UInt(100) },
        ]
    );
}

#[test]
fn an_account_round_trips() {
    for a in [
        account("abc", 0),
        account("9b2f5c1e-7d43-4a8b-9e21-0c6f3a5d8e47", 100),
        account("x", u64::MAX),
    ] {
        assert_eq!(decode_account(&encode_account(&a)), Some(a));
    }
}

#[test]
fn an_operation_is_encoded_field_by_field() {
    let doc = encode_operation(&operation(OperationType::Transfer, Some("b2"), Some(1234)));
    assert_eq!(
        doc.fields,
        vec![
            Field {
                key: ":crux.db/id".to_string(),
                value: keyword(":9b2f5c1e-7d43-4a8b-9e21-0c6f3a5d8e47"),
            },
            Field {
                key: ":account-operation/type".to_string(),
                value: keyword(":operation-type/transfer"),
            },
            Field { key: ":account-operation/amount".to_string(), value: Value::UInt(40) },
            Field {
                key: ":account-operation/source-account-id".to_string(),
                value: keyword(":a1"),
            },
            Field {
                key: ":account-operation/target-account-id".to_string(),
                value: keyword(":b2"),
            },
            Field { key: ":tx/tx-time".to_string(), value: Value::UInt(1234) },
        ]
    );
}

#[test]
fn an_absent_target_and_time_are_encoded_as_nil() {
    let doc = encode_operation(&operation(OperationType::Deposit, None, None));
    assert_eq!(doc.get(":account-operation/target-account-id"), Some(&Value::Nil));
    assert_eq!(doc.get(":tx/tx-time"), Some(&Value::Nil));
}

#[test]
fn an_operation_round_trips() {
    for o in [
        operation(OperationType::Create, None, Some(0)),
        operation(OperationType::Deposit, None, None),
        operation(OperationType::Withdraw, None, Some(-5)),
        operation(OperationType::Transfer, Some("b2"), Some(i64::MAX)),
        operation(OperationType::Transfer, Some("b2"), Some(i64::MIN)),
    ] {
        assert_eq!(decode_operation(&encode_operation(&o)), Some(o));
    }
}

#[test]
fn a_missing_target_decodes_to_none() {
    let decoded = decode_operation(&operation_document()).unwrap();
    assert_eq!(decoded.target_account_id, None);
    assert_eq!(decoded.tx_time, None);
    assert_eq!(decoded.id, "op");
    assert_eq!(decoded.kind, OperationType::Deposit);
    assert_eq!(decoded.amount, 7);
    assert_eq!(decoded.source_account_id, "acc");
}

#[test]
fn a_later_field_overrides_an_earlier_one() {
    let mut doc = operation_document();
    doc.set(":account-operation/amount", Value::UInt(9));
    assert_eq!(decode_operation(&doc).unwrap().amount, 9);
}

#[test]
fn times_decode_from_both_integer_spellings() {
    let mut doc = operation_document();
    doc.set(":tx/tx-time", Value::Int(-3));
    assert_eq!(decode_operation(&doc).unwrap().tx_time, Some(-3));
    doc.set(":tx/tx-time", Value::Int(3));
    assert_eq!(decode_operation(&doc).unwrap().tx_time, Some(3));
    doc.set(":tx/tx-time", Value::UInt(i64::MAX as u64));
    assert_eq!(decode_operation(&doc).unwrap().tx_time, Some(i64::MAX));
    doc.set(":tx/tx-time", Value::UInt(i64::MAX as u64 + 1));
    assert_eq!(decode_operation(&doc), None);
    doc.set(":tx/tx-time", Value::Text("yesterday".to_string()));
    assert_eq!(decode_operation(&doc), None);
}

#[test]
fn time_values_use_the_unsigned_spelling_from_zero_on() {
    assert_eq!(time_to_value(None), Value::Nil);
    assert_eq!(time_to_value(Some(0)), Value::UInt(0));
    assert_eq!(time_to_value(Some(17)), Value::UInt(17));
    assert_eq!(time_to_value(Some(-1)), Value::Int(-1));
}

#[test]
fn documents_that_hold_no_operation_decode_to_nothing() {
    let mut no_id = Document::new();
    no_id.set(":account-operation/type", keyword(":operation-type/deposit"));
    no_id.set(":account-operation/amount", Value::UInt(7));
    no_id.set(":account-operation/source-account-id", keyword(":acc"));
    assert_eq!(decode_operation(&no_id), None);

    let mut bad_kind = operation_document();
    bad_kind.set(":account-operation/type", keyword(":operation-type/refund"));
    assert_eq!(decode_operation(&bad_kind), None);

    let mut bad_amount = operation_document();
    bad_amount.set(":account-operation/amount", Value::Int(-7));
    assert_eq!(decode_operation(&bad_amount), None);

    let mut bad_source = operation_document();
    bad_source.set(":account-operation/source-account-id", Value::Text("acc".to_string()));
    assert_eq!(decode_operation(&bad_source), None);

    let mut bad_target = operation_document();
    bad_target.set(":account-operation/target-account-id", Value::UInt(4));
    assert_eq!(decode_operation(&bad_target), None);

    assert_eq!(decode_operation(&Document::new()), None);
}

#[test]
fn documents_that_hold_no_account_decode_to_nothing() {
    assert_eq!(decode_account(&Document::new()), None);

    let mut no_balance = Document::new();
    no_balance.set(":crux.db/id", keyword(":abc"));
    assert_eq!(decode_account(&no_balance), None);

    let mut text_balance = Document::new();
    text_balance.set(":crux.db/id", keyword(":abc"));
    text_balance.set(":account/amount", Value::Text("100".to_string()));
    assert_eq!(decode_account(&text_balance), None);

    let mut nil_id = Document::new();
    nil_id.set(":crux.db/id", Value::Nil);
    nil_id.set(":account/amount", Value::UInt(1));
    assert_eq!(decode_account(&nil_id), None);

    let mut other = Document::new();
    other.set(":crux.db/id", keyword(":abc"));
    other.set(":account/amount", Value::Unsupported);
    assert_eq!(decode_account(&other), None);
}

#[test]
fn ids_are_read_from_keywords_only() {
    assert_eq!(id_from_value(&keyword(":abc")), Some("abc".to_string()));
    assert_eq!(id_from_value(&keyword("abc")), None);
    assert_eq!(id_from_value(&keyword(":")), None);
    assert_eq!(id_from_value(&keyword("")), None);
    assert_eq!(id_from_value(&keyword("::abc")), None);
    assert_eq!(id_from_value(&keyword(":a b")), None);
    assert_eq!(id_from_value(&keyword(":a:b")), None);
    assert_eq!(id_from_value(&Value::Text(":abc".to_string())), None);
    assert_eq!(id_from_value(&Value::UInt(3)), None);
    assert_eq!(id_from_value(&Value::Nil), None);
    assert_eq!(id_from_value(&keyword(":h\u{e9}llo")), Some("h\u{e9}llo".to_string()));
}

#[test]
fn kinds_are_read_from_their_keywords_only() {
    assert_eq!(kind_from_value(&keyword(":operation-type/create")), Some(OperationType::Create));
    assert_eq!(kind_from_value(&keyword(":operation-type/deposit")), Some(OperationType::Deposit));
    assert_eq!(
        kind_from_value(&keyword(":operation-type/withdraw")),
        Some(OperationType::Withdraw)
    );
    assert_eq!(
        kind_from_value(&keyword(":operation-type/transfer")),
        Some(OperationType::Transfer)
    );
    assert_eq!(kind_from_value(&keyword("operation-type/create")), None);
    assert_eq!(kind_from_value(&keyword(":operation-type/Create")), None);
    assert_eq!(kind_from_value(&Value::Text(":operation-type/create".to_string())), None);
}

#[test]
fn every_source_gives_the_same_account() {
    let doc = encode_account(&account("abc", 5));
    assert_eq!(account_from(AccountSource::Entity(&doc)), Some(account("abc", 5)));
    assert_eq!(account_from(AccountSource::Snapshot(&doc)), Some(account("abc", 5)));
    assert_eq!(
        account_from(AccountSource::Request { id: "abc", initial_balance: 5 }),
        Some(account("abc", 5))
    );
    assert_eq!(account_from(AccountSource::Request { id: "a b", initial_balance: 5 }), None);
    assert_eq!(account_from(AccountSource::Request { id: "", initial_balance: 5 }), None);
    assert_eq!(account_from(AccountSource::Entity(&Document::new())), None);
    assert_eq!(account_from(AccountSource::Snapshot(&Document::new())), None);
}

#[test]
fn documents_answer_for_their_fields() {
    let mut doc = Document::new();
    assert_eq!(doc.get(":a"), None);
    doc.set(":a", Value::UInt(1));
    doc.set(":b", Value::Nil);
    assert_eq!(doc.get(":a"), Some(&Value::UInt(1)));
    assert_eq!(doc.get(":b"), Some(&Value::Nil));
    assert_eq!(doc.get(":c"), None);
    assert_eq!(doc.get("a"), None);
    doc.set(":a", Value::UInt(2));
    assert_eq!(doc.get(":a"), Some(&Value::UInt(2)));
    assert_eq!(doc.fields.len(), 3);
}
