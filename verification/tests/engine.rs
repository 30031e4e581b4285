//! The engine, step by step.
use bank_ledger::codec::{encode_account, encode_operation};
use bank_ledger::document::{Document, Value};
use bank_ledger::engine::{
    account_deposit, account_deposit_with, account_history, account_operations,
    account_transfer_with, account_withdraw, account_withdraw_with, create_account,
    create_account_with, get_account, resume,
};
use bank_ledger::entity::{Account, Operation, OperationType};
use bank_ledger::error::LedgerError;
use bank_ledger::state::{Outcome, Pending, Stamp, Step};
use bank_ledger::store::{Effect, HistoryRow, Put, Reply};

fn stamp() -> Stamp {
    Stamp { operation_id: "op-1".to_string(), tx_time: 77 }
}

fn account(id: &str, balance: u64) -> Account {
    Account { id: id.to_string(), balance }
}

fn found(id: &str, balance: u64) -> Reply {
    Reply::Document(Some(encode_account(&account(id, balance))))
}

fn record(kind: OperationType, amount: u64, source: &str, target: Option<&str>) -> Operation {
    Operation {
        id: "op-1".to_string(),
        kind,
        amount,
        source_account_id: source.to_string(),
        target_account_id: target.map(|t| t.to_string()),
        tx_time: Some(77),
    }
}

fn failure(step: Step) -> LedgerError {
    match step {
        Step::Failed(error) => error,
        other => panic!("not a failure: {:?}", other),
    }
}

fn fetch(step: Step) -> (String, Pending) {
    match step {
        Step::Call { effect: Effect::Fetch { key }, pending } => (key, pending),
        other => panic!("not a read: {:?}", other),
    }
}

fn commit(step: Step) -> (Vec<Put>, Account) {
    match step {
        Step::Call { effect: Effect::Commit { puts }, pending: Pending::Commit { account } } => {
            (puts, account)
        }
        other => panic!("not a commit: {:?}", other),
    }
}

fn account_put(account: &Account) -> Put {
    Put { document: encode_account(account), valid_time: None }
}

fn record_put(operation: &Operation) -> Put {
    Put { document: encode_operation(operation), valid_time: operation.tx_time }
}

#[test]
fn create_commits_the_account_and_the_record_of_its_creation() {
    let (puts, returned) = commit(create_account_with(100, "acc", stamp()));
    assert_eq!(returned, account("acc", 100));
    assert_eq!(
        puts,
        vec![
            account_put(&account("acc", 100)),
            record_put(&record(OperationType::Create, 100, "acc", None)),
        ]
    );
}

#[test]
fn create_refuses_ids_that_are_not_well_formed() {
    assert_eq!(failure(create_account_with(1, "a b", stamp())), LedgerError::InvalidArgument);
    assert_eq!(failure(create_account_with(1, "", stamp())), LedgerError::InvalidArgument);
    let bad = Stamp { operation_id: ":op".to_string(), tx_time: 1 };
    assert_eq!(failure(create_account_with(1, "acc", bad)), LedgerError::InvalidArgument);
}

#[test]
fn create_draws_two_different_ids() {
    let (puts, returned) = commit(create_account(5));
    assert_eq!(returned.balance, 5);
    assert_eq!(returned.id.len(), 36);
    assert_eq!(puts.len(), 2);
    assert_eq!(puts[0], account_put(&returned));
    assert_eq!(puts[0].valid_time, None);
    let own = Value::Keyword(format!(":{}", returned.id));
    assert_eq!(puts[1].document.get(":account-operation/source-account-id"), Some(&own));
    assert_ne!(puts[1].document.get(":crux.db/id"), Some(&own));
    assert_eq!(
        puts[1].document.get(":account-operation/type"),
        Some(&Value::Keyword(":operation-type/create".to_string()))
    );
    assert!(puts[1].valid_time.is_some());
    assert_eq!(puts[1].document.get(":tx/tx-time"), Some(&Value::UInt(puts[1].valid_time.unwrap() as u64)));
}

#[test]
fn reads_ask_for_the_key_of_the_id() {
    assert_eq!(fetch(get_account("abc")), (":abc".to_string(), Pending::Lookup));
    assert_eq!(
        fetch(account_deposit_with("abc", 5, stamp())),
        (":abc".to_string(), Pending::Deposit { amount: 5, stamp: stamp() })
    );
    assert_eq!(
        fetch(account_withdraw_with("abc", 5, stamp())),
        (":abc".to_string(), Pending::Withdraw { amount: 5, stamp: stamp() })
    );
    assert_eq!(
        fetch(account_transfer_with("abc", "def", 5, stamp())),
        (
            ":abc".to_string(),
            Pending::TransferSource { target_id: "def".to_string(), amount: 5, stamp: stamp() }
        )
    );
    assert_eq!(
        fetch(account_operations("abc")),
        (":abc".to_string(), Pending::OperationsOwner { account_id: "abc".to_string() })
    );
    match account_history("abc") {
        Step::Call { effect: Effect::FetchHistory { key }, pending: Pending::History } => {
            assert_eq!(key, ":abc")
        }
        other => panic!("not a read of the history: {:?}", other),
    }
}

#[test]
fn unusable_arguments_are_refused_before_any_read() {
    assert_eq!(failure(get_account("")), LedgerError::InvalidArgument);
    assert_eq!(failure(get_account("a:b")), LedgerError::InvalidArgument);
    assert_eq!(failure(account_history("a b")), LedgerError::InvalidArgument);
    assert_eq!(failure(account_operations(":a")), LedgerError::InvalidArgument);
    assert_eq!(failure(account_deposit_with("abc", 0, stamp())), LedgerError::InvalidArgument);
    assert_eq!(failure(account_deposit_with("a b", 1, stamp())), LedgerError::InvalidArgument);
    assert_eq!(failure(account_withdraw_with("abc", 0, stamp())), LedgerError::InvalidArgument);
    assert_eq!(failure(account_withdraw_with("", 1, stamp())), LedgerError::InvalidArgument);
    assert_eq!(
        failure(account_transfer_with("abc", "def", 0, stamp())),
        LedgerError::InvalidArgument
    );
    assert_eq!(
        failure(account_transfer_with("abc", "d f", 1, stamp())),
        LedgerError::InvalidArgument
    );
    assert_eq!(
        failure(account_transfer_with(":abc", "def", 1, stamp())),
        LedgerError::InvalidArgument
    );
    assert_eq!(failure(account_deposit("abc", 0)), LedgerError::InvalidArgument);
    assert_eq!(failure(account_withdraw("abc", 0)), LedgerError::InvalidArgument);
    let bad = Stamp { operation_id: "".to_string(), tx_time: 1 };
    assert_eq!(failure(account_deposit_with("abc", 1, bad)), LedgerError::InvalidArgument);
}

#[test]
fn a_lookup_returns_the_account_that_was_read() {
    match resume(Pending::Lookup, found("abc", 9)) {
        Step::Done(Outcome::Account(a)) => assert_eq!(a, account("abc", 9)),
        other => panic!("not an account: {:?}", other),
    }
    assert_eq!(failure(resume(Pending::Lookup, Reply::Document(None))), LedgerError::NotFound);
    assert_eq!(
        failure(resume(Pending::Lookup, Reply::Document(Some(Document::new())))),
        LedgerError::StoreError
    );
}

#[test]
fn a_deposit_commits_the_sum() {
    let (puts, returned) =
        commit(resume(Pending::Deposit { amount: 23, stamp: stamp() }, found("abc", 100)));
    assert_eq!(returned, account("abc", 123));
    assert_eq!(
        puts,
        vec![
            account_put(&account("abc", 123)),
            record_put(&record(OperationType::Deposit, 23, "abc", None)),
        ]
    );
}

#[test]
fn a_deposit_beyond_the_largest_balance_is_refused() {
    let pending = Pending::Deposit { amount: 2, stamp: stamp() };
    assert_eq!(failure(resume(pending, found("abc", u64::MAX - 1))), LedgerError::InvalidArgument);
    let (_, returned) =
        commit(resume(Pending::Deposit { amount: 1, stamp: stamp() }, found("abc", u64::MAX - 1)));
    assert_eq!(returned.balance, u64::MAX);
}

#[test]
fn a_withdrawal_commits_the_difference() {
    let (puts, returned) =
        commit(resume(Pending::Withdraw { amount: 30, stamp: stamp() }, found("abc", 100)));
    assert_eq!(returned, account("abc", 70));
    assert_eq!(
        puts,
        vec![
            account_put(&account("abc", 70)),
            record_put(&record(OperationType::Withdraw, 30, "abc", None)),
        ]
    );
}

#[test]
fn a_withdrawal_needs_the_funds() {
    let pending = Pending::Withdraw { amount: 75, stamp: stamp() };
    assert_eq!(failure(resume(pending, found("abc", 50))), LedgerError::InsufficientFunds);
    let pending = Pending::Withdraw { amount: 51, stamp: stamp() };
    assert_eq!(failure(resume(pending, found("abc", 50))), LedgerError::InsufficientFunds);
    let (_, returned) =
        commit(resume(Pending::Withdraw { amount: 50, stamp: stamp() }, found("abc", 50)));
    assert_eq!(returned.balance, 0);
}

#[test]
fn a_transfer_reads_the_target_once_the_source_has_the_funds() {
    let pending = Pending::TransferSource { target_id: "b".to_string(), amount: 40, stamp: stamp() };
    assert_eq!(
        fetch(resume(pending.clone(), found("a", 100))),
        (
            ":b".to_string(),
            Pending::TransferTarget { source: account("a", 100), amount: 40, stamp: stamp() }
        )
    );
    assert_eq!(failure(resume(pending.clone(), found("a", 39))), LedgerError::InsufficientFunds);
    assert_eq!(failure(resume(pending, Reply::Document(None))), LedgerError::NotFound);
}

#[test]
fn a_transfer_commits_both_accounts_and_one_record() {
    let pending = Pending::TransferTarget { source: account("a", 100), amount: 40, stamp: stamp() };
    let (puts, returned) = commit(resume(pending, found("b", 0)));
    assert_eq!(returned, account("a", 60));
    assert_eq!(
        puts,
        vec![
            account_put(&account("a", 60)),
            account_put(&account("b", 40)),
            record_put(&record(OperationType::Transfer, 40, "a", Some("b"))),
        ]
    );
}

#[test]
fn a_transfer_fails_without_target_funds_or_room() {
    let pending = Pending::TransferTarget { source: account("a", 100), amount: 40, stamp: stamp() };
    assert_eq!(failure(resume(pending.clone(), Reply::Document(None))), LedgerError::NotFound);
    assert_eq!(
        failure(resume(pending.clone(), found("b", u64::MAX - 39))),
        LedgerError::InvalidArgument
    );
    assert_eq!(
        failure(resume(pending, Reply::Document(Some(Document::new())))),
        LedgerError::StoreError
    );
    let short = Pending::TransferTarget { source: account("a", 10), amount: 40, stamp: stamp() };
    assert_eq!(failure(resume(short, found("b", 0))), LedgerError::InsufficientFunds);
}

#[test]
fn a_confirmed_commit_returns_the_account() {
    match resume(Pending::Commit { account: account("a", 1) }, Reply::Committed) {
        Step::Done(Outcome::Account(a)) => assert_eq!(a, account("a", 1)),
        other => panic!("not an account: {:?}", other),
    }
}

#[test]
fn a_commit_that_is_not_confirmed_fails() {
    let pending = Pending::Commit { account: account("a", 1) };
    assert_eq!(failure(resume(pending.clone(), Reply::Failed)), LedgerError::StoreError);
    assert_eq!(failure(resume(pending.clone(), found("a", 1))), LedgerError::StoreError);
    assert_eq!(
        failure(resume(pending.clone(), Reply::Matches(Vec::new()))),
        LedgerError::StoreError
    );
    assert_eq!(failure(resume(pending, Reply::History(Vec::new()))), LedgerError::StoreError);
}

#[test]
fn a_failure_of_the_store_fails_every_operation() {
    let waiting = vec![
        Pending::Lookup,
        Pending::Deposit { amount: 1, stamp: stamp() },
        Pending::Withdraw { amount: 1, stamp: stamp() },
        Pending::TransferSource { target_id: "b".to_string(), amount: 1, stamp: stamp() },
        Pending::TransferTarget { source: account("a", 1), amount: 1, stamp: stamp() },
        Pending::Commit { account: account("a", 1) },
        Pending::History,
        Pending::OperationsOwner { account_id: "a".to_string() },
        Pending::OperationsMatches,
        Pending::OperationsFetch { keys: vec![":x".to_string()], collected: Vec::new() },
    ];
    for pending in waiting {
        assert_eq!(failure(resume(pending, Reply::Failed)), LedgerError::StoreError);
    }
}

#[test]
fn a_reply_to_another_request_fails_the_operation() {
    assert_eq!(failure(resume(Pending::Lookup, Reply::Committed)), LedgerError::StoreError);
    assert_eq!(failure(resume(Pending::History, found("a", 1))), LedgerError::StoreError);
    assert_eq!(
        failure(resume(Pending::OperationsMatches, Reply::Committed)),
        LedgerError::StoreError
    );
    assert_eq!(
        failure(resume(Pending::Deposit { amount: 1, stamp: stamp() }, Reply::Committed)),
        LedgerError::StoreError
    );
}

#[test]
fn the_history_is_read_from_the_rows() {
    let rows = vec![
        HistoryRow { document: Some(encode_account(&account("a", 7))), tx_time: 20 },
        HistoryRow { document: Some(encode_account(&account("a", 5))), tx_time: 10 },
    ];
    match resume(Pending::History, Reply::History(rows)) {
        Step::Done(Outcome::History(elements)) => {
            assert_eq!(elements.len(), 2);
            assert_eq!((elements[0].account.balance, elements[0].tx_time), (7, 20));
            assert_eq!((elements[1].account.balance, elements[1].tx_time), (5, 10));
        }
        other => panic!("not a history: {:?}", other),
    }
    assert_eq!(
        failure(resume(Pending::History, Reply::History(Vec::new()))),
        LedgerError::NotFound
    );
}

#[test]
fn the_operations_of_an_account_that_exists_are_queried() {
    let pending = Pending::OperationsOwner { account_id: "abc".to_string() };
    match resume(pending, found("abc", 1)) {
        Step::Call { effect: Effect::RunQuery { query }, pending: Pending::OperationsMatches } => {
            assert_eq!(
                edn_rs::to_string(query),
                "{:query\n {:find [?account-operation]\n:where [[?account-operation \
                 :account-operation/source-account-id ?account-id]]\n:args [{?account-id \
                 :abc}]\n}}"
            );
        }
        other => panic!("not a query: {:?}", other),
    }
    let pending = Pending::OperationsOwner { account_id: "abc".to_string() };
    assert_eq!(failure(resume(pending, Reply::Document(None))), LedgerError::NotFound);
}

#[test]
fn an_account_without_operations_has_an_empty_list() {
    match resume(Pending::OperationsMatches, Reply::Matches(Vec::new())) {
        Step::Done(Outcome::Operations(operations)) => assert!(operations.is_empty()),
        other => panic!("not a list of operations: {:?}", other),
    }
}

#[test]
fn matched_rows_are_read_under_the_keys_of_their_first_column() {
    let rows = vec![
        vec![":op-1".to_string()],
        vec!["op 2".to_string(), "ignored".to_string()],
        vec!["a:b:c".to_string()],
    ];
    let keys = vec![":op-1".to_string(), ":op-2".to_string(), ":abc".to_string()];
    assert_eq!(
        fetch(resume(Pending::OperationsMatches, Reply::Matches(rows))),
        (":op-1".to_string(), Pending::OperationsFetch { keys, collected: Vec::new() })
    );
}

#[test]
fn a_row_without_columns_fails_the_operation() {
    let rows = vec![vec![":op-1".to_string()], Vec::new()];
    assert_eq!(
        failure(resume(Pending::OperationsMatches, Reply::Matches(rows))),
        LedgerError::StoreError
    );
}

#[test]
fn operations_are_read_one_by_one_and_returned_by_commit_time() {
    let late = Operation { id: "late".to_string(), tx_time: Some(9), ..record(OperationType::Deposit, 1, "a", None) };
    let early = Operation { id: "early".to_string(), tx_time: Some(3), ..record(OperationType::Create, 0, "a", None) };
    let keys = vec![":late".to_string(), ":early".to_string()];
    let first = resume(
        Pending::OperationsFetch { keys: keys.clone(), collected: Vec::new() },
        Reply::Document(Some(encode_operation(&late))),
    );
    let (key, pending) = fetch(first);
    assert_eq!(key, ":early");
    assert_eq!(pending, Pending::OperationsFetch { keys, collected: vec![late.clone()] });
    match resume(pending, Reply::Document(Some(encode_operation(&early)))) {
        Step::Done(Outcome::Operations(operations)) => assert_eq!(operations, vec![early, late]),
        other => panic!("not a list of operations: {:?}", other),
    }
}

#[test]
fn an_operation_that_cannot_be_read_fails_the_list() {
    let waiting = Pending::OperationsFetch { keys: vec![":x".to_string()], collected: Vec::new() };
    assert_eq!(failure(resume(waiting.clone(), Reply::Document(None))), LedgerError::StoreError);
    assert_eq!(
        failure(resume(waiting, Reply::Document(Some(encode_account(&account("x", 1)))))),
        LedgerError::StoreError
    );
    let full = Pending::OperationsFetch {
        keys: vec![":x".to_string()],
        collected: vec![record(OperationType::Create, 0, "a", None)],
    };
    let doc = encode_operation(&record(OperationType::Create, 0, "a", None));
    assert_eq!(failure(resume(full, Reply::Document(Some(doc)))), LedgerError::StoreError);
}
