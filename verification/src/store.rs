//! What the ledger asks of the document store, and what the store answers.
//!
//! The store is somebody else's: the ledger names a request, the caller
//! performs it and comes back with the reply.
use vstd::prelude::*;
use transistor::types::query::Query;
use crate::document::{Document, ValueView};
use crate::entity::time_view;

verus! {

/// One document to write, and the time from which it is to be valid.
#[derive(Clone, Debug, PartialEq, Eq)]
pub struct Put {
    pub document: Document,
    /// Milliseconds since the Unix epoch; `None` for the time of the commit.
    pub valid_time: Option<i64>,
}

/// What a [`Put`] stands for.
pub struct PutView {
    pub document: Map<Seq<char>, ValueView>,
    pub valid_time: Option<int>,
}

impl View for Put {
    type V = PutView;

    open spec fn view(&self) -> PutView {
        PutView { document: self.document@, valid_time: time_view(self.valid_time) }
    }
}

/// The views of a list of puts, in order.
pub open spec fn put_views(puts: Seq<Put>) -> Seq<PutView> {
    puts.map_values(|p: Put| p@)
}

/// A request to the document store.
#[derive(Debug)]
pub enum Effect {
    /// Read the current document under `key`.
    Fetch { key: String },
    /// Read every version of the document under `key`, newest first, each
    /// with its body and the time of its transaction.
    FetchHistory { key: String },
    /// Write all of `puts` in one transaction, or none of them.
    Commit { puts: Vec<Put> },
    /// Run `query` and return the rows that match.
    RunQuery { query: Query },
}

/// What an [`Effect`] stands for. Of a query it says only that one is run:
/// which one is fixed where it is built.
pub enum EffectView {
    Fetch { key: Seq<char> },
    FetchHistory { key: Seq<char> },
    Commit { puts: Seq<PutView> },
    RunQuery,
}

impl View for Effect {
    type V = EffectView;

    open spec fn view(&self) -> EffectView {
        match self {
            Effect::Fetch { key } => EffectView::Fetch { key: key@ },
            Effect::FetchHistory { key } => EffectView::FetchHistory { key: key@ },
            Effect::Commit { puts } => EffectView::Commit { puts: put_views(puts@) },
            Effect::RunQuery { query } => EffectView::RunQuery,
        }
    }
}

impl EffectView {
    /// Whether the request changes what the store holds. A commit is the
    /// only one that does.
    pub open spec fn writes(self) -> bool {
        self is Commit
    }
}

/// One version of a document in the store's history.
#[derive(Clone, Debug, PartialEq, Eq)]
pub struct HistoryRow {
    /// The version's body, if the store sent it.
    pub document: Option<Document>,
    /// When the version became current, in milliseconds since the Unix epoch.
    pub tx_time: i64,
}

/// What a [`HistoryRow`] stands for.
pub struct HistoryRowView {
    pub document: Option<Map<Seq<char>, ValueView>>,
    pub tx_time: int,
}

/// The view of an optional document.
pub open spec fn document_view(document: Option<Document>) -> Option<Map<Seq<char>, ValueView>> {
    match document {
        Some(d) => Some(d@),
        None => None,
    }
}

impl View for HistoryRow {
    type V = HistoryRowView;

    open spec fn view(&self) -> HistoryRowView {
        HistoryRowView { document: document_view(self.document), tx_time: self.tx_time as int }
    }
}

/// The views of a list of history rows, in order.
pub open spec fn row_views(rows: Seq<HistoryRow>) -> Seq<HistoryRowView> {
    rows.map_values(|r: HistoryRow| r@)
}

/// The views of the columns of one row of a query's result.
pub open spec fn column_views(columns: Seq<String>) -> Seq<Seq<char>> {
    columns.map_values(|c: String| c@)
}

/// The views of the rows of a query's result, in order.
pub open spec fn match_views(rows: Seq<Vec<String>>) -> Seq<Seq<Seq<char>>> {
    rows.map_values(|r: Vec<String>| column_views(r@))
}

/// The store's reply to a request.
#[derive(Clone, Debug, PartialEq, Eq)]
pub enum Reply {
    /// To `Fetch`: the document, or `None` where the store has none.
    Document(Option<Document>),
    /// To `FetchHistory`: the versions, in the order asked for.
    History(Vec<HistoryRow>),
    /// To `Commit`: everything was written.
    Committed,
    /// To `RunQuery`: the rows that match, each a list of columns.
    Matches(Vec<Vec<String>>),
    /// To any request: the store failed, and nothing was written.
    Failed,
}

/// What a [`Reply`] stands for.
pub enum ReplyView {
    Document(Option<Map<Seq<char>, ValueView>>),
    History(Seq<HistoryRowView>),
    Committed,
    Matches(Seq<Seq<Seq<char>>>),
    Failed,
}

impl View for Reply {
    type V = ReplyView;

    open spec fn view(&self) -> ReplyView {
        match self {
            Reply::Document(d) => ReplyView::Document(document_view(*d)),
            Reply::History(rows) => ReplyView::History(row_views(rows@)),
            Reply::Committed => ReplyView::Committed,
            Reply::Matches(rows) => ReplyView::Matches(match_views(rows@)),
            Reply::Failed => ReplyView::Failed,
        }
    }
}

} // verus!
