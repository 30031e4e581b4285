//! What each step of an operation is, stated over what the data stand for.
//!
//! The functions of the engine are held to these: each returns the step that
//! is written down here for its arguments.
use vstd::prelude::*;
use crate::codec::{
    account_document,
    account_from_source,
    operation_document,
    operation_of,
    AccountSourceView,
};
use crate::document::ValueView;
use crate::entity::{AccountView, OperationType, OperationView};
use crate::error::LedgerError;
use crate::history::history_of;
use crate::ident::{key_text, well_formed_id};
use crate::query::{args_text, find_text, query_accepted, where_text};
use crate::state::{OutcomeView, PendingView, StampView, StepView};
use crate::store::{EffectView, HistoryRowView, PutView, ReplyView};
use crate::timeline::by_commit_time;

verus! {

/// The audit record of an operation.
pub open spec fn record(
    kind: OperationType,
    stamp: StampView,
    amount: nat,
    source_account_id: Seq<char>,
    target_account_id: Option<Seq<char>>,
) -> OperationView {
    OperationView {
        id: stamp.operation_id,
        kind,
        amount,
        source_account_id,
        target_account_id,
        tx_time: Some(stamp.tx_time),
    }
}

/// The write of an account: its document, valid from the commit on.
pub open spec fn account_put(account: AccountView) -> PutView {
    PutView { document: account_document(account), valid_time: None }
}

/// The write of an audit record: its document, valid from the time of the
/// operation on.
pub open spec fn record_put(operation: OperationView) -> PutView {
    PutView { document: operation_document(operation), valid_time: operation.tx_time }
}

/// What an operation writes: the accounts it changed, in order, then its
/// audit record.
pub open spec fn write_set(accounts: Seq<AccountView>, operation: OperationView) -> Seq<PutView> {
    accounts.map_values(|a: AccountView| account_put(a)).push(record_put(operation))
}

/// The one commit of an operation: what it writes, and `result` to return
/// once the store has written it.
pub open spec fn commit_step(
    accounts: Seq<AccountView>,
    operation: OperationView,
    result: AccountView,
) -> StepView {
    StepView::Call {
        effect: EffectView::Commit { puts: write_set(accounts, operation) },
        pending: PendingView::Commit { account: result },
    }
}

/// The account that the store's reply to a read holds. No document: the
/// account does not exist. A document that holds no account: the store's
/// answer is unusable.
pub open spec fn read_account(doc: Option<Map<Seq<char>, ValueView>>) -> Result<
    AccountView,
    LedgerError,
> {
    match doc {
        None => Err(LedgerError::NotFound),
        Some(d) => match account_from_source(AccountSourceView::Entity(d)) {
            Some(account) => Ok(account),
            None => Err(LedgerError::StoreError),
        },
    }
}

/// The account with `amount` added to its balance.
pub open spec fn credited(account: AccountView, amount: nat) -> AccountView {
    AccountView { id: account.id, balance: account.balance + amount }
}

/// The account with `amount` taken from its balance.
pub open spec fn debited(account: AccountView, amount: nat) -> AccountView {
    AccountView { id: account.id, balance: (account.balance - amount) as nat }
}

/// Whether an account can take `amount` more: the sum is a balance that an
/// account can hold.
pub open spec fn can_credit(account: AccountView, amount: nat) -> bool {
    account.balance + amount <= u64::MAX
}

/// Whether an account can give `amount`: it holds that much.
pub open spec fn can_debit(account: AccountView, amount: nat) -> bool {
    account.balance >= amount
}

/// Opening an account: the account and the record of its creation go into
/// one commit. Ids that are not well formed are refused.
pub open spec fn create_account_step(
    initial_balance: nat,
    account_id: Seq<char>,
    stamp: StampView,
) -> StepView {
    match account_from_source(AccountSourceView::Request { id: account_id, initial_balance }) {
        Some(account) => if well_formed_id(stamp.operation_id) {
            commit_step(
                seq![account],
                record(OperationType::Create, stamp, initial_balance, account_id, None),
                account,
            )
        } else {
            StepView::Failed(LedgerError::InvalidArgument)
        },
        None => StepView::Failed(LedgerError::InvalidArgument),
    }
}

/// Looking an account up: an id that is not well formed is refused, any
/// other is read.
pub open spec fn get_account_step(id: Seq<char>) -> StepView {
    if well_formed_id(id) {
        StepView::Call {
            effect: EffectView::Fetch { key: key_text(id) },
            pending: PendingView::Lookup,
        }
    } else {
        StepView::Failed(LedgerError::InvalidArgument)
    }
}

/// Whether an operation that moves `amount` on the account `id` has usable
/// arguments: well-formed ids and a positive amount.
pub open spec fn movable(id: Seq<char>, amount: nat, stamp: StampView) -> bool {
    well_formed_id(id) && amount > 0 && well_formed_id(stamp.operation_id)
}

/// Starting a deposit: unusable arguments are refused before anything is
/// read; otherwise the account is read.
pub open spec fn deposit_step(id: Seq<char>, amount: nat, stamp: StampView) -> StepView {
    if movable(id, amount, stamp) {
        StepView::Call {
            effect: EffectView::Fetch { key: key_text(id) },
            pending: PendingView::Deposit { amount, stamp },
        }
    } else {
        StepView::Failed(LedgerError::InvalidArgument)
    }
}

/// Starting a withdrawal: unusable arguments are refused before anything is
/// read; otherwise the account is read.
pub open spec fn withdraw_step(id: Seq<char>, amount: nat, stamp: StampView) -> StepView {
    if movable(id, amount, stamp) {
        StepView::Call {
            effect: EffectView::Fetch { key: key_text(id) },
            pending: PendingView::Withdraw { amount, stamp },
        }
    } else {
        StepView::Failed(LedgerError::InvalidArgument)
    }
}

/// Starting a transfer: unusable arguments are refused before anything is
/// read; otherwise the source account is read.
pub open spec fn transfer_step(
    source_id: Seq<char>,
    target_id: Seq<char>,
    amount: nat,
    stamp: StampView,
) -> StepView {
    if movable(source_id, amount, stamp) && well_formed_id(target_id) {
        StepView::Call {
            effect: EffectView::Fetch { key: key_text(source_id) },
            pending: PendingView::TransferSource { target_id, amount, stamp },
        }
    } else {
        StepView::Failed(LedgerError::InvalidArgument)
    }
}

/// Starting the history of an account: an id that is not well formed is
/// refused, for any other the versions are read.
pub open spec fn history_step(id: Seq<char>) -> StepView {
    if well_formed_id(id) {
        StepView::Call {
            effect: EffectView::FetchHistory { key: key_text(id) },
            pending: PendingView::History,
        }
    } else {
        StepView::Failed(LedgerError::InvalidArgument)
    }
}

/// Starting the list of an account's operations: an id that is not well
/// formed is refused, for any other the account is read first.
pub open spec fn operations_step(id: Seq<char>) -> StepView {
    if well_formed_id(id) {
        StepView::Call {
            effect: EffectView::Fetch { key: key_text(id) },
            pending: PendingView::OperationsOwner { account_id: id },
        }
    } else {
        StepView::Failed(LedgerError::InvalidArgument)
    }
}

/// After the read of a lookup: the account that was read.
pub open spec fn after_lookup(doc: Option<Map<Seq<char>, ValueView>>) -> StepView {
    match read_account(doc) {
        Ok(account) => StepView::Done(OutcomeView::Account(account)),
        Err(e) => StepView::Failed(e),
    }
}

/// After the read of a deposit: the account with the amount added goes into
/// the commit, with the record of the deposit. An amount that the account
/// cannot take is refused, and nothing is written.
pub open spec fn after_deposit_read(
    doc: Option<Map<Seq<char>, ValueView>>,
    amount: nat,
    stamp: StampView,
) -> StepView {
    match read_account(doc) {
        Ok(account) => if can_credit(account, amount) {
            commit_step(
                seq![credited(account, amount)],
                record(OperationType::Deposit, stamp, amount, account.id, None),
                credited(account, amount),
            )
        } else {
            StepView::Failed(LedgerError::InvalidArgument)
        },
        Err(e) => StepView::Failed(e),
    }
}

/// After the read of a withdrawal: the account with the amount taken goes
/// into the commit, with the record of the withdrawal. An amount that the
/// account does not hold fails, and nothing is written.
pub open spec fn after_withdraw_read(
    doc: Option<Map<Seq<char>, ValueView>>,
    amount: nat,
    stamp: StampView,
) -> StepView {
    match read_account(doc) {
        Ok(account) => if can_debit(account, amount) {
            commit_step(
                seq![debited(account, amount)],
                record(OperationType::Withdraw, stamp, amount, account.id, None),
                debited(account, amount),
            )
        } else {
            StepView::Failed(LedgerError::InsufficientFunds)
        },
        Err(e) => StepView::Failed(e),
    }
}

/// After the read of a transfer's source: if the source holds the amount,
/// the target is read; if not, the transfer fails, and nothing is written.
pub open spec fn after_source_read(
    doc: Option<Map<Seq<char>, ValueView>>,
    target_id: Seq<char>,
    amount: nat,
    stamp: StampView,
) -> StepView {
    match read_account(doc) {
        Ok(source) => if can_debit(source, amount) {
            StepView::Call {
                effect: EffectView::Fetch { key: key_text(target_id) },
                pending: PendingView::TransferTarget { source, amount, stamp },
            }
        } else {
            StepView::Failed(LedgerError::InsufficientFunds)
        },
        Err(e) => StepView::Failed(e),
    }
}

/// After the read of a transfer's target: the source with the amount taken
/// and the target with the amount added go into one commit, with the record
/// of the transfer; the source is what the transfer returns.
pub open spec fn after_target_read(
    doc: Option<Map<Seq<char>, ValueView>>,
    source: AccountView,
    amount: nat,
    stamp: StampView,
) -> StepView {
    match read_account(doc) {
        Ok(target) => if !can_debit(source, amount) {
            StepView::Failed(LedgerError::InsufficientFunds)
        } else if !can_credit(target, amount) {
            StepView::Failed(LedgerError::InvalidArgument)
        } else {
            commit_step(
                seq![debited(source, amount), credited(target, amount)],
                record(OperationType::Transfer, stamp, amount, source.id, Some(target.id)),
                debited(source, amount),
            )
        },
        Err(e) => StepView::Failed(e),
    }
}

/// After the read of the account whose operations are asked for: if it
/// exists, the query for its operations is run.
pub open spec fn after_owner_read(
    doc: Option<Map<Seq<char>, ValueView>>,
    account_id: Seq<char>,
) -> StepView {
    match doc {
        None => StepView::Failed(LedgerError::NotFound),
        Some(_) => if query_accepted(find_text(), where_text(), args_text(account_id)) {
            StepView::Call { effect: EffectView::RunQuery, pending: PendingView::OperationsMatches }
        } else {
            StepView::Failed(LedgerError::StoreError)
        },
    }
}

/// The keys of the documents that the rows of a query's result name: the
/// key of each row's first column.
pub open spec fn matched_keys(rows: Seq<Seq<Seq<char>>>) -> Seq<Seq<char>> {
    rows.map_values(|row: Seq<Seq<char>>| key_text(row[0]))
}

/// After the query for an account's operations: no rows, no operations;
/// otherwise the first of the operations is read. A row without columns
/// makes the store's answer unusable.
pub open spec fn after_matches(rows: Seq<Seq<Seq<char>>>) -> StepView {
    if exists|i: int| 0 <= i < rows.len() && (#[trigger] rows[i]).len() == 0 {
        StepView::Failed(LedgerError::StoreError)
    } else if rows.len() == 0 {
        StepView::Done(OutcomeView::Operations(Seq::empty()))
    } else {
        StepView::Call {
            effect: EffectView::Fetch { key: matched_keys(rows)[0] },
            pending: PendingView::OperationsFetch {
                keys: matched_keys(rows),
                collected: Seq::empty(),
            },
        }
    }
}

/// After the read of one operation: it is put with those read before; when
/// it was the last, all are returned in the order of their commit, otherwise
/// the next is read. A document that is missing or holds no operation makes
/// the store's answer unusable.
pub open spec fn after_operation_read(
    doc: Option<Map<Seq<char>, ValueView>>,
    keys: Seq<Seq<char>>,
    collected: Seq<OperationView>,
) -> StepView {
    if collected.len() >= keys.len() {
        StepView::Failed(LedgerError::StoreError)
    } else {
        match doc {
            None => StepView::Failed(LedgerError::StoreError),
            Some(d) => match operation_of(d) {
                None => StepView::Failed(LedgerError::StoreError),
                Some(operation) => if collected.len() + 1 == keys.len() {
                    StepView::Done(
                        OutcomeView::Operations(by_commit_time(collected.push(operation))),
                    )
                } else {
                    StepView::Call {
                        effect: EffectView::Fetch { key: keys[collected.len() as int + 1] },
                        pending: PendingView::OperationsFetch {
                            keys,
                            collected: collected.push(operation),
                        },
                    }
                },
            },
        }
    }
}

/// After the store's reply to the versions of an account: the history that
/// the rows spell.
pub open spec fn after_history(rows: Seq<HistoryRowView>) -> StepView {
    match history_of(rows) {
        Ok(elements) => StepView::Done(OutcomeView::History(elements)),
        Err(e) => StepView::Failed(e),
    }
}

/// What an operation does with the store's reply. A failure of the store
/// fails the operation; so does a reply that is no answer to the request the
/// operation is waiting on.
pub open spec fn resume_step(pending: PendingView, reply: ReplyView) -> StepView {
    match (pending, reply) {
        (PendingView::Lookup, ReplyView::Document(doc)) => after_lookup(doc),
        (PendingView::Deposit { amount, stamp }, ReplyView::Document(doc)) => after_deposit_read(
            doc,
            amount,
            stamp,
        ),
        (PendingView::Withdraw { amount, stamp }, ReplyView::Document(doc)) => after_withdraw_read(
            doc,
            amount,
            stamp,
        ),
        (
            PendingView::TransferSource { target_id, amount, stamp },
            ReplyView::Document(doc),
        ) => after_source_read(doc, target_id, amount, stamp),
        (
            PendingView::TransferTarget { source, amount, stamp },
            ReplyView::Document(doc),
        ) => after_target_read(doc, source, amount, stamp),
        (PendingView::Commit { account }, ReplyView::Committed) => StepView::Done(
            OutcomeView::Account(account),
        ),
        (PendingView::History, ReplyView::History(rows)) => after_history(rows),
        (PendingView::OperationsOwner { account_id }, ReplyView::Document(doc)) => after_owner_read(
            doc,
            account_id,
        ),
        (PendingView::OperationsMatches, ReplyView::Matches(rows)) => after_matches(rows),
        (
            PendingView::OperationsFetch { keys, collected },
            ReplyView::Document(doc),
        ) => after_operation_read(doc, keys, collected),
        _ => StepView::Failed(LedgerError::StoreError),
    }
}

} // verus!
