//! Views of what the store recorded: the versions of an account, and the
//! operations against it in the order in which they were committed.
use vstd::prelude::*;
use crate::codec::{account_from, account_of, AccountSource};
use crate::entity::{Account, AccountView};
use crate::error::LedgerError;
use crate::store::{row_views, HistoryRow, HistoryRowView};

verus! {

/// One version of an account, and the time at which it became current.
#[derive(Clone, Debug, PartialEq, Eq)]
pub struct HistoryElement {
    pub account: Account,
    /// Milliseconds since the Unix epoch.
    pub tx_time: i64,
}

/// What a [`HistoryElement`] stands for.
pub struct HistoryElementView {
    pub account: AccountView,
    pub tx_time: int,
}

impl View for HistoryElement {
    type V = HistoryElementView;

    open spec fn view(&self) -> HistoryElementView {
        HistoryElementView { account: self.account@, tx_time: self.tx_time as int }
    }
}

/// The views of a list of history elements, in order.
pub open spec fn element_views(elements: Seq<HistoryElement>) -> Seq<HistoryElementView> {
    elements.map_values(|e: HistoryElement| e@)
}

/// The version that a row of the store's history holds, if it holds one: the
/// row has a body, and the body holds an account.
pub open spec fn element_of(row: HistoryRowView) -> Option<HistoryElementView> {
    match row.document {
        Some(doc) => match account_of(doc) {
            Some(account) => Some(HistoryElementView { account, tx_time: row.tx_time }),
            None => None,
        },
        None => None,
    }
}

/// The history that the store's rows spell. No rows: the account never
/// existed. A row that holds no version: the store's answer is unusable.
/// Otherwise the versions, row by row and in the rows' order.
pub open spec fn history_of(rows: Seq<HistoryRowView>) -> Result<
    Seq<HistoryElementView>,
    LedgerError,
> {
    if rows.len() == 0 {
        Err(LedgerError::NotFound)
    } else if exists|i: int| 0 <= i < rows.len() && element_of(#[trigger] rows[i]) is None {
        Err(LedgerError::StoreError)
    } else {
        Ok(rows.map_values(|r: HistoryRowView| element_of(r).unwrap()))
    }
}

/// The view of a history or of the error in its place.
pub open spec fn history_view(history: Result<Vec<HistoryElement>, LedgerError>) -> Result<
    Seq<HistoryElementView>,
    LedgerError,
> {
    match history {
        Ok(elements) => Ok(element_views(elements@)),
        Err(e) => Err(e),
    }
}

/// The version that `row` holds, if it holds one.
pub fn element_from(row: &HistoryRow) -> (element: Option<HistoryElement>)
    ensures
        match element {
            Some(e) => element_of(row@) == Some(e@),
            None => element_of(row@) is None,
        },
{
    match &row.document {
        Some(doc) => match account_from(AccountSource::Snapshot(doc)) {
            Some(account) => Some(HistoryElement { account, tx_time: row.tx_time }),
            None => None,
        },
        None => None,
    }
}

/// The history of an account from the rows that the store returned for it.
pub fn reconstruct_history(rows: &Vec<HistoryRow>) -> (history: Result<
    Vec<HistoryElement>,
    LedgerError,
>)
    ensures
        history_view(history) == history_of(row_views(rows@)),
{
    let ghost all = row_views(rows@);
    if rows.len() == 0 {
        return Err(LedgerError::NotFound);
    }
    let mut elements: Vec<HistoryElement> = Vec::new();
    let mut i: usize = 0;
    while i < rows.len()
        invariant
            i <= rows.len(),
            all == row_views(rows@),
            elements.len() == i,
            forall|j: int| 0 <= j < i ==> element_of(#[trigger] all[j]) == Some(elements@[j]@),
        decreases rows.len() - i,
    {
        match element_from(&rows[i]) {
            Some(element) => {
                elements.push(element);
            },
            None => {
                assert(element_of(all[i as int]) is None);
                return Err(LedgerError::StoreError);
            },
        }
        i = i + 1;
    }
    assert(element_views(elements@) =~= all.map_values(
        |r: HistoryRowView| element_of(r).unwrap(),
    ));
    Ok(elements)
}

/// A history keeps the order of its rows: where the rows' times fall
/// strictly, newest first, so do the times of the versions.
pub proof fn lemma_history_keeps_order(rows: Seq<HistoryRowView>)
    requires
        history_of(rows) is Ok,
        forall|i: int, j: int|
            0 <= i < j < rows.len() ==> (#[trigger] rows[i]).tx_time > (#[trigger] rows[j]).tx_time,
    ensures
        history_of(rows).unwrap().len() == rows.len(),
        forall|i: int, j: int|
            0 <= i < j < rows.len() ==> (#[trigger] history_of(rows).unwrap()[i]).tx_time > (
            #[trigger] history_of(rows).unwrap()[j]).tx_time,
{
    let elements = history_of(rows).unwrap();
    assert forall|i: int, j: int| 0 <= i < j < rows.len() implies (#[trigger] elements[i]).tx_time
        > (#[trigger] elements[j]).tx_time by {
        assert(element_of(rows[i]) is Some);
        assert(element_of(rows[j]) is Some);
        assert(rows[i].tx_time > rows[j].tx_time);
    }
}

} // verus!
