//! The ledger transaction engine.
//!
//! Each operation starts with a function that checks its arguments and names
//! the first request to the store. [`resume`] takes the store's reply and
//! names the next request, until the operation is done or has failed. An
//! operation writes at most once: everything it changes goes into one commit,
//! and the commit is its last request.
//!
//! The engine keeps nothing between operations and takes no lock. An
//! operation decides on the balance that it has read itself, and its commit
//! is not tied to the version that it read: two operations on one account
//! that run at the same time can both read a balance that suffices and both
//! commit. Only a store that refuses a commit against a stale version can
//! close that gap; the engine then reports the refusal as a `StoreError`.
use vstd::prelude::*;
use vstd::string::StringExecFns;
use crate::clock::current_millis;
use crate::codec::{account_from, decode_operation, encode_account, encode_operation, AccountSource};
use crate::document::Document;
use crate::entity::{operation_views, text_view, Account, AccountView, Operation, OperationType};
use crate::error::LedgerError;
use crate::history::reconstruct_history;
use crate::ident::{
    document_key,
    fresh_id,
    is_hyphenated_uuid,
    is_well_formed_id,
    key_text,
    lemma_uuid_is_well_formed,
    well_formed_id,
};
use crate::model::{
    account_put,
    after_deposit_read,
    after_history,
    after_lookup,
    after_matches,
    after_operation_read,
    after_owner_read,
    after_source_read,
    after_target_read,
    after_withdraw_read,
    commit_step,
    create_account_step,
    deposit_step,
    get_account_step,
    history_step,
    matched_keys,
    movable,
    operations_step,
    read_account,
    record,
    record_put,
    resume_step,
    transfer_step,
    withdraw_step,
    write_set,
};
use crate::query::operations_query;
use crate::state::{Outcome, Pending, Stamp, StampView, Step, StepView};
use crate::store::{
    column_views,
    document_view,
    match_views,
    put_views,
    row_views,
    Effect,
    HistoryRow,
    Put,
    Reply,
};
use crate::timeline::order_operations;

verus! {

/// The audit record of an operation.
fn make_record(
    kind: OperationType,
    stamp: Stamp,
    amount: u64,
    source_account_id: String,
    target_account_id: Option<String>,
) -> (operation: Operation)
    ensures
        operation@ == record(
            kind,
            stamp@,
            amount as nat,
            source_account_id@,
            text_view(target_account_id),
        ),
{
    Operation {
        id: stamp.operation_id,
        kind,
        amount,
        source_account_id,
        target_account_id,
        tx_time: Some(stamp.tx_time),
    }
}

/// The write of `account`.
fn put_account(account: &Account) -> (put: Put)
    ensures
        put@ == account_put(account@),
{
    Put { document: encode_account(account), valid_time: None }
}

/// The write of `operation`.
fn put_record(operation: &Operation) -> (put: Put)
    ensures
        put@ == record_put(operation@),
{
    Put { document: encode_operation(operation), valid_time: operation.tx_time }
}

/// The commit of one changed account and the record of the change.
fn commit_one(account: Account, operation: Operation) -> (step: Step)
    ensures
        step@ == commit_step(seq![account@], operation@, account@),
{
    let mut puts: Vec<Put> = Vec::new();
    puts.push(put_account(&account));
    puts.push(put_record(&operation));
    assert(put_views(puts@) =~= write_set(seq![account@], operation@));
    Step::Call { effect: Effect::Commit { puts }, pending: Pending::Commit { account } }
}

/// The commit of the two accounts of a transfer and the record of it.
fn commit_two(source: Account, target: Account, operation: Operation) -> (step: Step)
    ensures
        step@ == commit_step(seq![source@, target@], operation@, source@),
{
    let mut puts: Vec<Put> = Vec::new();
    puts.push(put_account(&source));
    puts.push(put_account(&target));
    puts.push(put_record(&operation));
    assert(put_views(puts@) =~= write_set(seq![source@, target@], operation@));
    Step::Call { effect: Effect::Commit { puts }, pending: Pending::Commit { account: source } }
}

/// The account that the store's reply to a read holds.
fn read(doc: &Option<Document>) -> (account: Result<Account, LedgerError>)
    ensures
        match account {
            Ok(a) => read_account(document_view(*doc)) == Ok::<AccountView, LedgerError>(a@),
            Err(e) => read_account(document_view(*doc)) == Err::<AccountView, LedgerError>(e),
        },
{
    match doc {
        None => Err(LedgerError::NotFound),
        Some(d) => match account_from(AccountSource::Entity(d)) {
            Some(account) => Ok(account),
            None => Err(LedgerError::StoreError),
        },
    }
}

/// Starts the opening of an account with `initial_balance` under
/// `account_id`, recorded under `stamp`.
pub fn create_account_with(initial_balance: u64, account_id: &str, stamp: Stamp) -> (step: Step)
    ensures
        step@ == create_account_step(initial_balance as nat, account_id@, stamp@),
{
    match account_from(AccountSource::Request { id: account_id, initial_balance }) {
        Some(account) => {
            if is_well_formed_id(stamp.operation_id.as_str()) {
                let operation = make_record(
                    OperationType::Create,
                    stamp,
                    initial_balance,
                    String::from_str(account_id),
                    None,
                );
                commit_one(account, operation)
            } else {
                Step::Failed(LedgerError::InvalidArgument)
            }
        },
        None => Step::Failed(LedgerError::InvalidArgument),
    }
}

/// Starts the lookup of the account `id`.
pub fn get_account(id: &str) -> (step: Step)
    ensures
        step@ == get_account_step(id@),
{
    if is_well_formed_id(id) {
        Step::Call { effect: Effect::Fetch { key: document_key(id) }, pending: Pending::Lookup }
    } else {
        Step::Failed(LedgerError::InvalidArgument)
    }
}

/// Whether an operation that moves `amount` on the account `id` has usable
/// arguments.
fn is_movable(id: &str, amount: u64, stamp: &Stamp) -> (ok: bool)
    ensures
        ok == movable(id@, amount as nat, stamp@),
{
    is_well_formed_id(id) && amount > 0 && is_well_formed_id(stamp.operation_id.as_str())
}

/// Starts a deposit of `amount` into the account `id`, recorded under
/// `stamp`.
pub fn account_deposit_with(id: &str, amount: u64, stamp: Stamp) -> (step: Step)
    ensures
        step@ == deposit_step(id@, amount as nat, stamp@),
{
    if is_movable(id, amount, &stamp) {
        Step::Call {
            effect: Effect::Fetch { key: document_key(id) },
            pending: Pending::Deposit { amount, stamp },
        }
    } else {
        Step::Failed(LedgerError::InvalidArgument)
    }
}

/// Starts a withdrawal of `amount` from the account `id`, recorded under
/// `stamp`.
pub fn account_withdraw_with(id: &str, amount: u64, stamp: Stamp) -> (step: Step)
    ensures
        step@ == withdraw_step(id@, amount as nat, stamp@),
{
    if is_movable(id, amount, &stamp) {
        Step::Call {
            effect: Effect::Fetch { key: document_key(id) },
            pending: Pending::Withdraw { amount, stamp },
        }
    } else {
        Step::Failed(LedgerError::InvalidArgument)
    }
}

/// Starts a transfer of `amount` from the account `source_id` to the
/// account `target_id`, recorded under `stamp`.
pub fn account_transfer_with(source_id: &str, target_id: &str, amount: u64, stamp: Stamp) -> (step:
    Step)
    ensures
        step@ == transfer_step(source_id@, target_id@, amount as nat, stamp@),
{
    if is_movable(source_id, amount, &stamp) && is_well_formed_id(target_id) {
        Step::Call {
            effect: Effect::Fetch { key: document_key(source_id) },
            pending: Pending::TransferSource {
                target_id: String::from_str(target_id),
                amount,
                stamp,
            },
        }
    } else {
        Step::Failed(LedgerError::InvalidArgument)
    }
}

/// Starts the history of the account `id`.
pub fn account_history(id: &str) -> (step: Step)
    ensures
        step@ == history_step(id@),
{
    if is_well_formed_id(id) {
        Step::Call {
            effect: Effect::FetchHistory { key: document_key(id) },
            pending: Pending::History,
        }
    } else {
        Step::Failed(LedgerError::InvalidArgument)
    }
}

/// Starts the list of the operations against the account `id`.
pub fn account_operations(id: &str) -> (step: Step)
    ensures
        step@ == operations_step(id@),
{
    if is_well_formed_id(id) {
        Step::Call {
            effect: Effect::Fetch { key: document_key(id) },
            pending: Pending::OperationsOwner { account_id: String::from_str(id) },
        }
    } else {
        Step::Failed(LedgerError::InvalidArgument)
    }
}

/// A stamp for a new operation: a random id and the current time.
pub fn new_stamp() -> (stamp: Stamp)
    ensures
        is_hyphenated_uuid(stamp@.operation_id),
{
    Stamp { operation_id: fresh_id(), tx_time: current_millis() }
}

/// Starts the opening of an account with `initial_balance`, under a random
/// id and with a new stamp. Whatever was drawn, the step is the one that
/// opens the account under what was drawn.
pub fn create_account(initial_balance: u64) -> (step: Step)
    ensures
        exists|account_id: Seq<char>, stamp: StampView|
            is_hyphenated_uuid(account_id) && is_hyphenated_uuid(stamp.operation_id) && step@
                == #[trigger] create_account_step(initial_balance as nat, account_id, stamp),
        step@ is Call,
{
    let account_id = fresh_id();
    let stamp = new_stamp();
    let ghost drawn = stamp@;
    proof {
        lemma_uuid_is_well_formed(account_id@);
        lemma_uuid_is_well_formed(drawn.operation_id);
    }
    let step = create_account_with(initial_balance, account_id.as_str(), stamp);
    assert(step@ == create_account_step(initial_balance as nat, account_id@, drawn));
    step
}

/// Starts a deposit of `amount` into the account `id`, with a new stamp.
pub fn account_deposit(id: &str, amount: u64) -> (step: Step)
    ensures
        exists|stamp: StampView|
            is_hyphenated_uuid(stamp.operation_id) && step@ == #[trigger] deposit_step(
                id@,
                amount as nat,
                stamp,
            ),
        step@ is Call <==> well_formed_id(id@) && amount > 0,
        !(step@ is Call) ==> step@ == StepView::Failed(LedgerError::InvalidArgument),
{
    let stamp = new_stamp();
    let ghost drawn = stamp@;
    proof {
        lemma_uuid_is_well_formed(drawn.operation_id);
    }
    let step = account_deposit_with(id, amount, stamp);
    assert(step@ == deposit_step(id@, amount as nat, drawn));
    step
}

/// Starts a withdrawal of `amount` from the account `id`, with a new stamp.
pub fn account_withdraw(id: &str, amount: u64) -> (step: Step)
    ensures
        exists|stamp: StampView|
            is_hyphenated_uuid(stamp.operation_id) && step@ == #[trigger] withdraw_step(
                id@,
                amount as nat,
                stamp,
            ),
        step@ is Call <==> well_formed_id(id@) && amount > 0,
        !(step@ is Call) ==> step@ == StepView::Failed(LedgerError::InvalidArgument),
{
    let stamp = new_stamp();
    let ghost drawn = stamp@;
    proof {
        lemma_uuid_is_well_formed(drawn.operation_id);
    }
    let step = account_withdraw_with(id, amount, stamp);
    assert(step@ == withdraw_step(id@, amount as nat, drawn));
    step
}

/// Starts a transfer of `amount` from the account `source_id` to the
/// account `target_id`, with a new stamp.
pub fn account_transfer(source_id: &str, target_id: &str, amount: u64) -> (step: Step)
    ensures
        exists|stamp: StampView|
            is_hyphenated_uuid(stamp.operation_id) && step@ == #[trigger] transfer_step(
                source_id@,
                target_id@,
                amount as nat,
                stamp,
            ),
        step@ is Call <==> well_formed_id(source_id@) && well_formed_id(target_id@) && amount > 0,
        !(step@ is Call) ==> step@ == StepView::Failed(LedgerError::InvalidArgument),
{
    let stamp = new_stamp();
    let ghost drawn = stamp@;
    proof {
        lemma_uuid_is_well_formed(drawn.operation_id);
    }
    let step = account_transfer_with(source_id, target_id, amount, stamp);
    assert(step@ == transfer_step(source_id@, target_id@, amount as nat, drawn));
    step
}

/// The step after the read of a lookup.
fn lookup_read(doc: Option<Document>) -> (step: Step)
    ensures
        step@ == after_lookup(document_view(doc)),
{
    match read(&doc) {
        Ok(account) => Step::Done(Outcome::Account(account)),
        Err(e) => Step::Failed(e),
    }
}

/// The step after the read of a deposit.
fn deposit_read(doc: Option<Document>, amount: u64, stamp: Stamp) -> (step: Step)
    ensures
        step@ == after_deposit_read(document_view(doc), amount as nat, stamp@),
{
    match read(&doc) {
        Ok(account) => {
            if amount <= u64::MAX - account.balance {
                let operation = make_record(
                    OperationType::Deposit,
                    stamp,
                    amount,
                    account.id.clone(),
                    None,
                );
                let updated = Account { id: account.id, balance: account.balance + amount };
                commit_one(updated, operation)
            } else {
                Step::Failed(LedgerError::InvalidArgument)
            }
        },
        Err(e) => Step::Failed(e),
    }
}

/// The step after the read of a withdrawal.
fn withdraw_read(doc: Option<Document>, amount: u64, stamp: Stamp) -> (step: Step)
    ensures
        step@ == after_withdraw_read(document_view(doc), amount as nat, stamp@),
{
    match read(&doc) {
        Ok(account) => {
            if account.balance >= amount {
                let operation = make_record(
                    OperationType::Withdraw,
                    stamp,
                    amount,
                    account.id.clone(),
                    None,
                );
                let updated = Account { id: account.id, balance: account.balance - amount };
                commit_one(updated, operation)
            } else {
                Step::Failed(LedgerError::InsufficientFunds)
            }
        },
        Err(e) => Step::Failed(e),
    }
}

/// The step after the read of a transfer's source.
fn source_read(doc: Option<Document>, target_id: String, amount: u64, stamp: Stamp) -> (step: Step)
    ensures
        step@ == after_source_read(document_view(doc), target_id@, amount as nat, stamp@),
{
    match read(&doc) {
        Ok(source) => {
            if source.balance >= amount {
                Step::Call {
                    effect: Effect::Fetch { key: document_key(target_id.as_str()) },
                    pending: Pending::TransferTarget { source, amount, stamp },
                }
            } else {
                Step::Failed(LedgerError::InsufficientFunds)
            }
        },
        Err(e) => Step::Failed(e),
    }
}

/// The step after the read of a transfer's target.
fn target_read(doc: Option<Document>, source: Account, amount: u64, stamp: Stamp) -> (step: Step)
    ensures
        step@ == after_target_read(document_view(doc), source@, amount as nat, stamp@),
{
    match read(&doc) {
        Ok(target) => {
            if source.balance < amount {
                Step::Failed(LedgerError::InsufficientFunds)
            } else if amount > u64::MAX - target.balance {
                Step::Failed(LedgerError::InvalidArgument)
            } else {
                let operation = make_record(
                    OperationType::Transfer,
                    stamp,
                    amount,
                    source.id.clone(),
                    Some(target.id.clone()),
                );
                let paid = Account { id: source.id, balance: source.balance - amount };
                let received = Account { id: target.id, balance: target.balance + amount };
                commit_two(paid, received, operation)
            }
        },
        Err(e) => Step::Failed(e),
    }
}

/// The step after the read of the account whose operations are asked for.
fn owner_read(doc: Option<Document>, account_id: String) -> (step: Step)
    ensures
        step@ == after_owner_read(document_view(doc), account_id@),
{
    match doc {
        None => Step::Failed(LedgerError::NotFound),
        Some(_) => match operations_query(account_id.as_str()) {
            Some(query) => Step::Call {
                effect: Effect::RunQuery { query },
                pending: Pending::OperationsMatches,
            },
            None => Step::Failed(LedgerError::StoreError),
        },
    }
}

/// The keys of the documents that the rows of a query's result name, or
/// `None` where a row has no column.
fn keys_of(rows: &Vec<Vec<String>>) -> (keys: Option<Vec<String>>)
    ensures
        match keys {
            Some(k) => {
                &&& forall|i: int| 0 <= i < rows@.len() ==> (#[trigger] match_views(rows@)[i]).len() > 0
                &&& column_views(k@) == matched_keys(match_views(rows@))
            },
            None => exists|i: int|
                0 <= i < rows@.len() && (#[trigger] match_views(rows@)[i]).len() == 0,
        },
{
    let ghost all = match_views(rows@);
    let mut keys: Vec<String> = Vec::new();
    let mut i: usize = 0;
    while i < rows.len()
        invariant
            i <= rows.len(),
            all == match_views(rows@),
            keys.len() == i,
            forall|j: int| 0 <= j < i ==> (#[trigger] all[j]).len() > 0,
            forall|j: int| 0 <= j < i ==> (#[trigger] keys@[j])@ == key_text(all[j][0]),
        decreases rows.len() - i,
    {
        let row = &rows[i];
        assert(all[i as int] == column_views(row@));
        if row.len() == 0 {
            assert(all[i as int].len() == 0);
            return None;
        }
        let key = document_key(row[0].as_str());
        assert(all[i as int][0] == row@[0]@);
        keys.push(key);
        i = i + 1;
    }
    assert(column_views(keys@) =~= matched_keys(all));
    Some(keys)
}

/// The step after the query for an account's operations.
fn matches_read(rows: Vec<Vec<String>>) -> (step: Step)
    ensures
        step@ == after_matches(match_views(rows@)),
{
    match keys_of(&rows) {
        None => Step::Failed(LedgerError::StoreError),
        Some(keys) => {
            let ghost all = match_views(rows@);
            assert(!(exists|i: int| 0 <= i < all.len() && (#[trigger] all[i]).len() == 0));
            assert(column_views(keys@).len() == keys@.len());
            assert(matched_keys(all).len() == all.len());
            if keys.len() == 0 {
                let none: Vec<Operation> = Vec::new();
                assert(operation_views(none@) =~= Seq::empty());
                Step::Done(Outcome::Operations(none))
            } else {
                let first = keys[0].clone();
                let collected: Vec<Operation> = Vec::new();
                assert(operation_views(collected@) =~= Seq::empty());
                assert(column_views(keys@)[0] == keys@[0]@);
                Step::Call {
                    effect: Effect::Fetch { key: first },
                    pending: Pending::OperationsFetch { keys, collected },
                }
            }
        },
    }
}

/// The step after the read of one operation.
fn operation_read(doc: Option<Document>, keys: Vec<String>, collected: Vec<Operation>) -> (step:
    Step)
    ensures
        step@ == after_operation_read(
            document_view(doc),
            column_views(keys@),
            operation_views(collected@),
        ),
{
    if collected.len() >= keys.len() {
        return Step::Failed(LedgerError::StoreError);
    }
    match doc {
        None => Step::Failed(LedgerError::StoreError),
        Some(d) => match decode_operation(&d) {
            None => Step::Failed(LedgerError::StoreError),
            Some(operation) => {
                let ghost before = operation_views(collected@);
                let mut collected = collected;
                collected.push(operation);
                assert(operation_views(collected@) =~= before.push(operation@));
                if collected.len() == keys.len() {
                    Step::Done(Outcome::Operations(order_operations(collected)))
                } else {
                    let next = keys[collected.len()].clone();
                    assert(column_views(keys@)[collected.len() as int] == keys@[collected.len() as int]@);
                    Step::Call {
                        effect: Effect::Fetch { key: next },
                        pending: Pending::OperationsFetch { keys, collected },
                    }
                }
            },
        },
    }
}

/// The step after the store's reply to the versions of an account.
fn history_read(rows: Vec<HistoryRow>) -> (step: Step)
    ensures
        step@ == after_history(row_views(rows@)),
{
    match reconstruct_history(&rows) {
        Ok(elements) => Step::Done(Outcome::History(elements)),
        Err(e) => Step::Failed(e),
    }
}

/// Takes an operation on from `pending` with the store's `reply`.
pub fn resume(pending: Pending, reply: Reply) -> (step: Step)
    ensures
        step@ == resume_step(pending@, reply@),
{
    match pending {
        Pending::Lookup => match reply {
            Reply::Document(doc) => lookup_read(doc),
            _ => Step::Failed(LedgerError::StoreError),
        },
        Pending::Deposit { amount, stamp } => match reply {
            Reply::Document(doc) => deposit_read(doc, amount, stamp),
            _ => Step::Failed(LedgerError::StoreError),
        },
        Pending::Withdraw { amount, stamp } => match reply {
            Reply::Document(doc) => withdraw_read(doc, amount, stamp),
            _ => Step::Failed(LedgerError::StoreError),
        },
        Pending::TransferSource { target_id, amount, stamp } => match reply {
            Reply::Document(doc) => source_read(doc, target_id, amount, stamp),
            _ => Step::Failed(LedgerError::StoreError),
        },
        Pending::TransferTarget { source, amount, stamp } => match reply {
            Reply::Document(doc) => target_read(doc, source, amount, stamp),
            _ => Step::Failed(LedgerError::StoreError),
        },
        Pending::Commit { account } => match reply {
            Reply::Committed => Step::Done(Outcome::Account(account)),
            _ => Step::Failed(LedgerError::StoreError),
        },
        Pending::History => match reply {
            Reply::History(rows) => history_read(rows),
            _ => Step::Failed(LedgerError::StoreError),
        },
        Pending::OperationsOwner { account_id } => match reply {
            Reply::Document(doc) => owner_read(doc, account_id),
            _ => Step::Failed(LedgerError::StoreError),
        },
        Pending::OperationsMatches => match reply {
            Reply::Matches(rows) => matches_read(rows),
            _ => Step::Failed(LedgerError::StoreError),
        },
        Pending::OperationsFetch { keys, collected } => match reply {
            Reply::Document(doc) => operation_read(doc, keys, collected),
            _ => Step::Failed(LedgerError::StoreError),
        },
    }
}

} // verus!
