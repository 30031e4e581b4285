//! The ledger's entities: accounts and the operations recorded against them.
use vstd::prelude::*;
use crate::ident::well_formed_id;

verus! {

/// An account: an id and the balance it holds.
#[derive(Clone, Debug, PartialEq, Eq)]
pub struct Account {
    pub id: String,
    pub balance: u64,
}

/// What an [`Account`] stands for.
pub struct AccountView {
    pub id: Seq<char>,
    pub balance: nat,
}

impl View for Account {
    type V = AccountView;

    open spec fn view(&self) -> AccountView {
        AccountView { id: self.id@, balance: self.balance as nat }
    }
}

impl AccountView {
    /// An account is valid when its id is well formed and its balance is one
    /// that an [`Account`] can hold.
    pub open spec fn valid(self) -> bool {
        well_formed_id(self.id) && self.balance <= u64::MAX
    }
}

/// What an operation did.
#[derive(Clone, Copy, Debug, PartialEq, Eq, Structural)]
pub enum OperationType {
    Create,
    Deposit,
    Withdraw,
    Transfer,
}

/// The audit record of one ledger operation.
#[derive(Clone, Debug, PartialEq, Eq)]
pub struct Operation {
    pub id: String,
    pub kind: OperationType,
    pub amount: u64,
    pub source_account_id: String,
    /// The account that received the amount: present for transfers.
    pub target_account_id: Option<String>,
    /// When the operation was committed, in milliseconds since the Unix epoch.
    pub tx_time: Option<i64>,
}

/// What an [`Operation`] stands for.
pub struct OperationView {
    pub id: Seq<char>,
    pub kind: OperationType,
    pub amount: nat,
    pub source_account_id: Seq<char>,
    pub target_account_id: Option<Seq<char>>,
    pub tx_time: Option<int>,
}

/// The view of an optional string.
pub open spec fn text_view(text: Option<String>) -> Option<Seq<char>> {
    match text {
        Some(t) => Some(t@),
        None => None,
    }
}

/// The view of an optional time.
pub open spec fn time_view(time: Option<i64>) -> Option<int> {
    match time {
        Some(t) => Some(t as int),
        None => None,
    }
}

impl View for Operation {
    type V = OperationView;

    open spec fn view(&self) -> OperationView {
        OperationView {
            id: self.id@,
            kind: self.kind,
            amount: self.amount as nat,
            source_account_id: self.source_account_id@,
            target_account_id: text_view(self.target_account_id),
            tx_time: time_view(self.tx_time),
        }
    }
}

impl OperationView {
    /// An operation is well formed when a document can hold it: its ids are
    /// well formed and its numbers are ones that an [`Operation`] can hold.
    pub open spec fn well_formed(self) -> bool {
        &&& well_formed_id(self.id)
        &&& well_formed_id(self.source_account_id)
        &&& self.target_account_id matches Some(target) ==> well_formed_id(target)
        &&& self.amount <= u64::MAX
        &&& self.tx_time matches Some(t) ==> i64::MIN <= t <= i64::MAX
    }

    /// An operation is valid when it is well formed, names a target exactly
    /// if it is a transfer, and moves a positive amount unless it records
    /// the creation of an account.
    pub open spec fn valid(self) -> bool {
        &&& self.well_formed()
        &&& (self.kind == OperationType::Transfer <==> self.target_account_id is Some)
        &&& self.kind != OperationType::Create ==> self.amount > 0
    }
}

/// The views of a list of operations, in order.
pub open spec fn operation_views(operations: Seq<Operation>) -> Seq<OperationView> {
    operations.map_values(|o: Operation| o@)
}

} // verus!
