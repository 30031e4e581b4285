//! A model of the document store, to state what the engine's operations do
//! to a store.
//!
//! The model keeps the current version of each document under its key,
//! writes a commit entirely or not at all, and serves reads from what it
//! holds.
use vstd::prelude::*;
use crate::codec::{account_document, id_key, lemma_field_names_differ, operation_document};
use crate::document::ValueView;
use crate::entity::{AccountView, OperationView};
use crate::ident::{key_text, lemma_key_of_well_formed, well_formed_id};
use crate::model::{account_put, record, record_put, resume_step, write_set};
use crate::state::StepView;
use crate::store::{EffectView, PutView, ReplyView};

verus! {

/// The key under which the store files a document: the keyword in its id
/// field.
pub open spec fn filed_under(document: Map<Seq<char>, ValueView>) -> Option<Seq<char>> {
    if document.contains_key(id_key()) {
        match document[id_key()] {
            ValueView::Keyword(k) => Some(k),
            _ => None,
        }
    } else {
        None
    }
}

/// The store after it has written `puts`, one after the other.
pub open spec fn store_with(
    store: Map<Seq<char>, Map<Seq<char>, ValueView>>,
    puts: Seq<PutView>,
) -> Map<Seq<char>, Map<Seq<char>, ValueView>>
    decreases puts.len(),
{
    if puts.len() == 0 {
        store
    } else {
        let before = store_with(store, puts.drop_last());
        match filed_under(puts.last().document) {
            Some(key) => before.insert(key, puts.last().document),
            None => before,
        }
    }
}

/// The store after a request and the reply it gave: a commit that it
/// confirmed is written, whole; anything else leaves the store as it was.
pub open spec fn store_after(
    store: Map<Seq<char>, Map<Seq<char>, ValueView>>,
    effect: EffectView,
    reply: ReplyView,
) -> Map<Seq<char>, Map<Seq<char>, ValueView>> {
    match (effect, reply) {
        (EffectView::Commit { puts }, ReplyView::Committed) => store_with(store, puts),
        _ => store,
    }
}

/// An operation run from `step` against the store, the store giving
/// `replies` one after the other: the store and the step at the end.
pub open spec fn run(
    store: Map<Seq<char>, Map<Seq<char>, ValueView>>,
    step: StepView,
    replies: Seq<ReplyView>,
) -> (Map<Seq<char>, Map<Seq<char>, ValueView>>, StepView)
    decreases replies.len(),
{
    match step {
        StepView::Call { effect, pending } => if replies.len() == 0 {
            (store, step)
        } else {
            run(
                store_after(store, effect, replies[0]),
                resume_step(pending, replies[0]),
                replies.skip(1),
            )
        },
        _ => (store, step),
    }
}

/// The reply of a store that works: a read returns what the store holds
/// under the key, and a commit is confirmed. The model keeps no versions and
/// answers no queries.
pub open spec fn answer(
    store: Map<Seq<char>, Map<Seq<char>, ValueView>>,
    effect: EffectView,
) -> ReplyView {
    match effect {
        EffectView::Fetch { key } => ReplyView::Document(
            if store.contains_key(key) {
                Some(store[key])
            } else {
                None
            },
        ),
        EffectView::Commit { puts } => ReplyView::Committed,
        _ => ReplyView::Failed,
    }
}

/// An operation run from `step` against a store that works, for at most
/// `rounds` requests: the store and the step at the end.
pub open spec fn perform(
    store: Map<Seq<char>, Map<Seq<char>, ValueView>>,
    step: StepView,
    rounds: nat,
) -> (Map<Seq<char>, Map<Seq<char>, ValueView>>, StepView)
    decreases rounds,
{
    match step {
        StepView::Call { effect, pending } => if rounds == 0 {
            (store, step)
        } else {
            perform(
                store_after(store, effect, answer(store, effect)),
                resume_step(pending, answer(store, effect)),
                (rounds - 1) as nat,
            )
        },
        _ => (store, step),
    }
}

/// Whether the store holds `account`, under the key of its id.
pub open spec fn holds_account(
    store: Map<Seq<char>, Map<Seq<char>, ValueView>>,
    account: AccountView,
) -> bool {
    store.contains_key(key_text(account.id)) && store[key_text(account.id)] == account_document(
        account,
    )
}

/// Whether the store holds the audit record `operation`, under the key of
/// its id.
pub open spec fn holds_record(
    store: Map<Seq<char>, Map<Seq<char>, ValueView>>,
    operation: OperationView,
) -> bool {
    store.contains_key(key_text(operation.id)) && store[key_text(operation.id)]
        == operation_document(operation)
}

/// Different well-formed ids have different keys.
pub proof fn lemma_keys_differ(a: Seq<char>, b: Seq<char>)
    requires
        well_formed_id(a),
        well_formed_id(b),
        a != b,
    ensures
        key_text(a) != key_text(b),
{
    lemma_key_of_well_formed(a);
    lemma_key_of_well_formed(b);
    assert((seq![':'] + a).skip(1) =~= a);
    assert((seq![':'] + b).skip(1) =~= b);
}

/// The documents of accounts and audit records are filed under the key of
/// their id.
pub proof fn lemma_filed_under_id(account: AccountView, operation: OperationView)
    ensures
        filed_under(account_document(account)) == Some(key_text(account.id)),
        filed_under(operation_document(operation)) == Some(key_text(operation.id)),
{
    lemma_field_names_differ();
}

/// What a commit of one account and an audit record leaves in the store.
pub proof fn lemma_store_with_one(
    store: Map<Seq<char>, Map<Seq<char>, ValueView>>,
    account: AccountView,
    operation: OperationView,
)
    ensures
        store_with(
            store,
            write_set(seq![account], operation),
        ) == store.insert(key_text(account.id), account_document(account)).insert(
            key_text(operation.id),
            operation_document(operation),
        ),
{
    lemma_filed_under_id(account, operation);
    let puts = write_set(seq![account], operation);
    let first = puts.drop_last();
    assert(puts.last() == record_put(operation));
    assert(first.len() == 1);
    assert(first.last() == account_put(account));
    assert(first.drop_last().len() == 0);
    reveal_with_fuel(store_with, 3);
}

/// What a commit of two accounts and an audit record leaves in the store.
pub proof fn lemma_store_with_two(
    store: Map<Seq<char>, Map<Seq<char>, ValueView>>,
    source: AccountView,
    target: AccountView,
    operation: OperationView,
)
    ensures
        store_with(
            store,
            write_set(seq![source, target], operation),
        ) == store.insert(key_text(source.id), account_document(source)).insert(
            key_text(target.id),
            account_document(target),
        ).insert(key_text(operation.id), operation_document(operation)),
{
    lemma_filed_under_id(source, operation);
    lemma_filed_under_id(target, operation);
    let puts = write_set(seq![source, target], operation);
    let two = puts.drop_last();
    let one = two.drop_last();
    assert(puts.last() == record_put(operation));
    assert(two.len() == 2);
    assert(two.last() == account_put(target));
    assert(one.len() == 1);
    assert(one.last() == account_put(source));
    assert(one.drop_last().len() == 0);
    reveal_with_fuel(store_with, 4);
}

} // verus!
