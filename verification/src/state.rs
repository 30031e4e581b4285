//! Where an operation stands, what it does next and what it returns.
use vstd::prelude::*;
use crate::entity::{operation_views, Account, AccountView, Operation, OperationView};
use crate::error::LedgerError;
use crate::history::{element_views, HistoryElement, HistoryElementView};
use crate::store::{column_views, Effect, EffectView};

verus! {

/// What marks one operation: the id of its audit record and the time of its
/// commit.
#[derive(Clone, Debug, PartialEq, Eq)]
pub struct Stamp {
    pub operation_id: String,
    /// Milliseconds since the Unix epoch.
    pub tx_time: i64,
}

/// What a [`Stamp`] stands for.
pub struct StampView {
    pub operation_id: Seq<char>,
    pub tx_time: int,
}

impl View for Stamp {
    type V = StampView;

    open spec fn view(&self) -> StampView {
        StampView { operation_id: self.operation_id@, tx_time: self.tx_time as int }
    }
}

/// Where an operation stands while the store works on its request.
#[derive(Clone, Debug, PartialEq, Eq)]
pub enum Pending {
    /// Reading the account, to return it.
    Lookup,
    /// Reading the account, to add `amount` to it.
    Deposit { amount: u64, stamp: Stamp },
    /// Reading the account, to take `amount` from it.
    Withdraw { amount: u64, stamp: Stamp },
    /// Reading the account that a transfer draws on.
    TransferSource { target_id: String, amount: u64, stamp: Stamp },
    /// Reading the account that a transfer pays into; `source` is the
    /// account it draws on, as it was read.
    TransferTarget { source: Account, amount: u64, stamp: Stamp },
    /// Writing; `account` is what the operation returns once it is written.
    Commit { account: Account },
    /// Reading the versions of the account.
    History,
    /// Reading the account whose operations are asked for, to see that it
    /// exists.
    OperationsOwner { account_id: String },
    /// Running the query for the account's operations.
    OperationsMatches,
    /// Reading the operations one by one: `keys` are the keys of all that
    /// matched, `collected` the operations read so far, and the document
    /// awaited is the one under the next key.
    OperationsFetch { keys: Vec<String>, collected: Vec<Operation> },
}

/// What a [`Pending`] stands for.
pub enum PendingView {
    Lookup,
    Deposit { amount: nat, stamp: StampView },
    Withdraw { amount: nat, stamp: StampView },
    TransferSource { target_id: Seq<char>, amount: nat, stamp: StampView },
    TransferTarget { source: AccountView, amount: nat, stamp: StampView },
    Commit { account: AccountView },
    History,
    OperationsOwner { account_id: Seq<char> },
    OperationsMatches,
    OperationsFetch { keys: Seq<Seq<char>>, collected: Seq<OperationView> },
}

impl View for Pending {
    type V = PendingView;

    open spec fn view(&self) -> PendingView {
        match self {
            Pending::Lookup => PendingView::Lookup,
            Pending::Deposit { amount, stamp } => PendingView::Deposit {
                amount: *amount as nat,
                stamp: stamp@,
            },
            Pending::Withdraw { amount, stamp } => PendingView::Withdraw {
                amount: *amount as nat,
                stamp: stamp@,
            },
            Pending::TransferSource { target_id, amount, stamp } => PendingView::TransferSource {
                target_id: target_id@,
                amount: *amount as nat,
                stamp: stamp@,
            },
            Pending::TransferTarget { source, amount, stamp } => PendingView::TransferTarget {
                source: source@,
                amount: *amount as nat,
                stamp: stamp@,
            },
            Pending::Commit { account } => PendingView::Commit { account: account@ },
            Pending::History => PendingView::History,
            Pending::OperationsOwner { account_id } => PendingView::OperationsOwner {
                account_id: account_id@,
            },
            Pending::OperationsMatches => PendingView::OperationsMatches,
            Pending::OperationsFetch { keys, collected } => PendingView::OperationsFetch {
                keys: column_views(keys@),
                collected: operation_views(collected@),
            },
        }
    }
}

/// What an operation returns when it succeeds.
#[derive(Clone, Debug, PartialEq, Eq)]
pub enum Outcome {
    /// The account, as it is after the operation.
    Account(Account),
    /// The versions of the account, newest first.
    History(Vec<HistoryElement>),
    /// The operations against the account, in the order of their commit.
    Operations(Vec<Operation>),
}

/// What an [`Outcome`] stands for.
pub enum OutcomeView {
    Account(AccountView),
    History(Seq<HistoryElementView>),
    Operations(Seq<OperationView>),
}

impl View for Outcome {
    type V = OutcomeView;

    open spec fn view(&self) -> OutcomeView {
        match self {
            Outcome::Account(a) => OutcomeView::Account(a@),
            Outcome::History(h) => OutcomeView::History(element_views(h@)),
            Outcome::Operations(o) => OutcomeView::Operations(operation_views(o@)),
        }
    }
}

/// What an operation does next.
#[derive(Debug)]
pub enum Step {
    /// Send `effect` to the store, and resume from `pending` with its reply.
    Call { effect: Effect, pending: Pending },
    /// The operation succeeded.
    Done(Outcome),
    /// The operation failed.
    Failed(LedgerError),
}

/// What a [`Step`] stands for.
pub enum StepView {
    Call { effect: EffectView, pending: PendingView },
    Done(OutcomeView),
    Failed(LedgerError),
}

impl View for Step {
    type V = StepView;

    open spec fn view(&self) -> StepView {
        match self {
            Step::Call { effect, pending } => StepView::Call { effect: effect@, pending: pending@ },
            Step::Done(outcome) => StepView::Done(outcome@),
            Step::Failed(error) => StepView::Failed(*error),
        }
    }
}

} // verus!
