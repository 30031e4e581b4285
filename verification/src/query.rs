//! The query that finds the operations of an account.
use vstd::prelude::*;
use vstd::string::StringExecFns;
use transistor::types::error::CruxError;
use transistor::types::query::Query;
use crate::ident::{document_key, key_text};

verus! {

/// A query as the store's client takes it. The ledger builds one and hands
/// it on; it never reads it.
#[verifier::external_type_specification]
#[verifier::external_body]
pub struct ExQuery(Query);

/// The error of the store's client.
#[verifier::external_type_specification]
#[verifier::external_body]
pub struct ExCruxError(CruxError);

/// Whether the client's query builder accepts a query with one `find`
/// element, one `where` clause and one `args` binding.
pub uninterp spec fn query_accepted(
    find: Seq<char>,
    where_clause: Seq<char>,
    args: Seq<char>,
) -> bool;

/// What the query asks for: the variable bound to each matching operation.
pub open spec fn find_text() -> Seq<char> {
    "?account-operation"@
}

/// The condition of the query: the operation's source account is the one
/// bound to the account variable.
pub open spec fn where_text() -> Seq<char> {
    "?account-operation :account-operation/source-account-id ?account-id"@
}

/// The binding of the query: the account variable is the key of `id`.
pub open spec fn args_text(id: Seq<char>) -> Seq<char> {
    "?account-id "@ + key_text(id)
}

/// Builds a query of one `find` element, one `where` clause and one `args`
/// binding.
///
/// Calls `Query::find`, `Query::where_clause`, `Query::args` and
/// `Query::build` of `transistor`, in that order. Each of the first three
/// checks its text against the ones before and may refuse it. The contract
/// claims only that acceptance depends on the three texts and on nothing
/// else; it claims nothing of the query that comes back.
#[verifier::external_body]
pub(crate) fn build_query(find: &str, where_clause: &str, args: &str) -> (built: Result<
    Query,
    CruxError,
>)
    ensures
        built is Ok <==> query_accepted(find@, where_clause@, args@),
{
    Query::find(vec![find])?.where_clause(vec![where_clause])?.args(vec![args])?.build()
}

/// The query for the operations whose source account is `id`, if the
/// client's builder accepts it.
pub fn operations_query(id: &str) -> (query: Option<Query>)
    ensures
        query is Some <==> query_accepted(find_text(), where_text(), args_text(id@)),
{
    let key = document_key(id);
    let mut args = String::from_str("?account-id ");
    args.append(key.as_str());
    match build_query(
        "?account-operation",
        "?account-operation :account-operation/source-account-id ?account-id",
        args.as_str(),
    ) {
        Ok(query) => Some(query),
        Err(_) => None,
    }
}

} // verus!
