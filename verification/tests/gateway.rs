//! Requests as a gateway reads them, and the status of their outcome.
use bank_ledger::document::{Document, Value};
use bank_ledger::engine::resume;
use bank_ledger::entity::Account;
use bank_ledger::error::LedgerError;
use bank_ledger::gateway::{
    begin, begin_with, create_request, deposit_request, response_status, transfer_request,
    withdraw_request, Request,
};
use bank_ledger::state::{Outcome, Pending, Stamp, Step};
use bank_ledger::store::{Effect, Reply};

fn body(fields: Vec<(&str, Value)>) -> Document {
    let mut doc = Document::new();
    for (key, value) in fields {
        doc.set(key, value);
    }
    doc
}

fn stamp() -> Stamp {
    Stamp { operation_id: "op".to_string(), tx_time: 3 }
}

#[test]
fn a_body_with_an_amount_opens_an_account() {
    assert_eq!(
        create_request(&body(vec![(":amount", Value::UInt(100))])),
        Ok(Request::CreateAccount { initial_balance: 100 })
    );
    assert_eq!(
        create_request(&body(vec![(":amount", Value::UInt(0))])),
        Ok(Request::CreateAccount { initial_balance: 0 })
    );
    assert_eq!(
        create_request(&body(vec![(":amount", Value::Int(4))])),
        Ok(Request::CreateAccount { initial_balance: 4 })
    );
}

#[test]
fn a_body_without_an_amount_opens_nothing() {
    assert_eq!(create_request(&Document::new()), Err(LedgerError::InvalidArgument));
    assert_eq!(
        create_request(&body(vec![(":amount", Value::Int(-1))])),
        Err(LedgerError::InvalidArgument)
    );
    assert_eq!(
        create_request(&body(vec![(":amount", Value::Text("100".to_string()))])),
        Err(LedgerError::InvalidArgument)
    );
    assert_eq!(
        create_request(&body(vec![(":balance", Value::UInt(100))])),
        Err(LedgerError::InvalidArgument)
    );
}

#[test]
fn the_amount_to_move_is_zero_where_the_body_names_none() {
    assert_eq!(
        deposit_request("a", &body(vec![(":amount", Value::UInt(5))])),
        Request::Deposit { id: "a".to_string(), amount: 5 }
    );
    assert_eq!(
        deposit_request("a", &Document::new()),
        Request::Deposit { id: "a".to_string(), amount: 0 }
    );
    assert_eq!(
        withdraw_request("a", &body(vec![(":amount", Value::Int(-5))])),
        Request::Withdraw { id: "a".to_string(), amount: 0 }
    );
    assert_eq!(
        withdraw_request("a", &body(vec![(":amount", Value::UInt(6))])),
        Request::Withdraw { id: "a".to_string(), amount: 6 }
    );
}

#[test]
fn a_transfer_needs_a_target() {
    let with_text =
        body(vec![(":amount", Value::UInt(5)), (":target-account-id", Value::Text("b".to_string()))]);
    assert_eq!(
        transfer_request("a", &with_text),
        Ok(Request::Transfer { source_id: "a".to_string(), target_id: "b".to_string(), amount: 5 })
    );
    let with_keyword = body(vec![(":target-account-id", Value::Keyword(":b".to_string()))]);
    assert_eq!(
        transfer_request("a", &with_keyword),
        Ok(Request::Transfer { source_id: "a".to_string(), target_id: "b".to_string(), amount: 0 })
    );
    assert_eq!(
        transfer_request("a", &body(vec![(":amount", Value::UInt(5))])),
        Err(LedgerError::InvalidArgument)
    );
    assert_eq!(
        transfer_request("a", &body(vec![(":target-account-id", Value::Nil)])),
        Err(LedgerError::InvalidArgument)
    );
    assert_eq!(
        transfer_request("a", &body(vec![(":target-account-id", Value::Text("b c".to_string()))])),
        Err(LedgerError::InvalidArgument)
    );
}

#[test]
fn a_request_with_a_zero_amount_is_refused() {
    let request = deposit_request("a", &Document::new());
    match begin(request) {
        Step::Failed(e) => assert_eq!(e, LedgerError::InvalidArgument),
        other => panic!("not a failure: {:?}", other),
    }
}

#[test]
fn each_request_starts_with_its_first_step() {
    let requests = vec![
        (Request::GetAccount { id: "a".to_string() }, Pending::Lookup),
        (
            Request::Deposit { id: "a".to_string(), amount: 2 },
            Pending::Deposit { amount: 2, stamp: stamp() },
        ),
        (
            Request::Withdraw { id: "a".to_string(), amount: 2 },
            Pending::Withdraw { amount: 2, stamp: stamp() },
        ),
        (
            Request::Transfer { source_id: "a".to_string(), target_id: "b".to_string(), amount: 2 },
            Pending::TransferSource { target_id: "b".to_string(), amount: 2, stamp: stamp() },
        ),
        (
            Request::AccountOperations { id: "a".to_string() },
            Pending::OperationsOwner { account_id: "a".to_string() },
        ),
    ];
    for (request, expected) in requests {
        match begin_with(request, "new", stamp()) {
            Step::Call { effect: Effect::Fetch { key }, pending } => {
                assert_eq!(key, ":a");
                assert_eq!(pending, expected);
            }
            other => panic!("not a read: {:?}", other),
        }
    }
    match begin_with(Request::AccountHistory { id: "a".to_string() }, "new", stamp()) {
        Step::Call { effect: Effect::FetchHistory { key }, pending } => {
            assert_eq!(key, ":a");
            assert_eq!(pending, Pending::History);
        }
        other => panic!("not a read of the history: {:?}", other),
    }
    match begin_with(Request::CreateAccount { initial_balance: 8 }, "new", stamp()) {
        Step::Call { effect: Effect::Commit { puts }, pending } => {
            assert_eq!(puts.len(), 2);
            assert_eq!(
                pending,
                Pending::Commit { account: Account { id: "new".to_string(), balance: 8 } }
            );
        }
        other => panic!("not a commit: {:?}", other),
    }
}

#[test]
fn begin_opens_an_account_under_a_drawn_id() {
    match begin(Request::CreateAccount { initial_balance: 8 }) {
        Step::Call { effect: Effect::Commit { puts }, pending: Pending::Commit { account } } => {
            assert_eq!(puts.len(), 2);
            assert_eq!(account.balance, 8);
            assert_eq!(account.id.len(), 36);
        }
        other => panic!("not a commit: {:?}", other),
    }
}

#[test]
fn the_status_reports_how_an_operation_ended() {
    let account = Account { id: "a".to_string(), balance: 1 };
    let done = Step::Done(Outcome::Account(account.clone()));
    assert_eq!(response_status(true, &done), Some(201));
    assert_eq!(response_status(false, &done), Some(200));
    assert_eq!(response_status(false, &Step::Done(Outcome::History(Vec::new()))), Some(200));
    assert_eq!(response_status(false, &Step::Done(Outcome::Operations(Vec::new()))), Some(200));
    assert_eq!(response_status(true, &Step::Failed(LedgerError::InvalidArgument)), Some(400));
    assert_eq!(response_status(false, &Step::Failed(LedgerError::NotFound)), Some(404));
    assert_eq!(response_status(false, &Step::Failed(LedgerError::InsufficientFunds)), Some(409));
    assert_eq!(response_status(false, &Step::Failed(LedgerError::StoreError)), Some(500));
    let waiting =
        Step::Call { effect: Effect::Fetch { key: ":a".to_string() }, pending: Pending::Lookup };
    assert_eq!(response_status(false, &waiting), None);
    let failed = resume(Pending::Commit { account }, Reply::Failed);
    assert_eq!(response_status(true, &failed), Some(500));
}
