//! Atomicity: an operation writes at most once, everything at once, and an
//! operation that fails has written nothing.
use vstd::prelude::*;
use crate::document::ValueView;
use crate::entity::{AccountView, OperationType, OperationView};
use crate::error::LedgerError;
use crate::ident::well_formed_id;
use crate::model::{
    create_account_step,
    credited,
    debited,
    deposit_step,
    get_account_step,
    history_step,
    operations_step,
    read_account,
    record,
    resume_step,
    transfer_step,
    withdraw_step,
    write_set,
};
use crate::state::{PendingView, StampView, StepView};
use crate::store::{EffectView, PutView, ReplyView};
use crate::store_model::{run, store_after};

verus! {

/// A step is orderly when, if it writes, it waits for nothing but the
/// confirmation of that write.
pub open spec fn orderly(step: StepView) -> bool {
    step matches StepView::Call { effect, pending } ==> (effect.writes() ==> pending is Commit)
}

/// Every step that the engine takes after a reply is orderly.
pub proof fn lemma_resumed_step_is_orderly(pending: PendingView, reply: ReplyView)
    ensures
        orderly(resume_step(pending, reply)),
{
}

/// Every step with which the engine starts an operation is orderly.
pub proof fn lemma_first_step_is_orderly(
    id: Seq<char>,
    other_id: Seq<char>,
    amount: nat,
    stamp: StampView,
)
    ensures
        orderly(create_account_step(amount, id, stamp)),
        orderly(get_account_step(id)),
        orderly(deposit_step(id, amount, stamp)),
        orderly(withdraw_step(id, amount, stamp)),
        orderly(transfer_step(id, other_id, amount, stamp)),
        orderly(history_step(id)),
        orderly(operations_step(id)),
{
}

/// An operation writes at most once, and the write is the last thing it asks
/// for: once the store has replied to a commit, the operation is over. It has
/// succeeded if the store confirmed the commit, and has failed with
/// `StoreError` if the store did anything else.
pub proof fn lemma_commit_ends_operation(step: StepView, reply: ReplyView)
    requires
        orderly(step),
        step matches StepView::Call { effect, pending } && effect.writes(),
    ensures
        step matches StepView::Call { effect, pending } && (if reply is Committed {
            resume_step(pending, reply) is Done
        } else {
            resume_step(pending, reply) == StepView::Failed(LedgerError::StoreError)
        }),
{
}

/// Atomicity. Only an operation that succeeds changes the store. One that
/// fails leaves the store as it was: whatever the store replied on the way,
/// and wherever the failure came from, none of the operation's documents is
/// in the store, neither an account nor an audit record. The same holds of
/// an operation that is still waiting for a reply.
pub proof fn lemma_failure_writes_nothing(
    store: Map<Seq<char>, Map<Seq<char>, ValueView>>,
    step: StepView,
    replies: Seq<ReplyView>,
)
    requires
        orderly(step),
    ensures
        !(run(store, step, replies).1 is Done) ==> run(store, step, replies).0 == store,
    decreases replies.len(),
{
    match step {
        StepView::Call { effect, pending } => {
            if replies.len() > 0 {
                let reply = replies[0];
                let next = resume_step(pending, reply);
                lemma_resumed_step_is_orderly(pending, reply);
                if effect.writes() {
                    if reply is Committed {
                        assert(next is Done);
                        assert(run(store_after(store, effect, reply), next, replies.skip(1)).1
                            == next);
                    } else {
                        assert(store_after(store, effect, reply) == store);
                        assert(next is Failed);
                    }
                } else {
                    assert(store_after(store, effect, reply) == store);
                    lemma_failure_writes_nothing(store, next, replies.skip(1));
                }
            }
        },
        _ => {},
    }
}

/// Whether `puts` is what one operation writes: one account or two, and
/// behind them exactly one audit record.
pub open spec fn is_write_set(puts: Seq<PutView>) -> bool {
    exists|accounts: Seq<AccountView>, operation: OperationView|
        1 <= accounts.len() <= 2 && puts == #[trigger] write_set(accounts, operation)
}

/// Every commit that the engine asks for after a reply is the write of one
/// operation: the accounts it changed and exactly one audit record, all in
/// the one commit.
pub proof fn lemma_commit_is_one_write_set(pending: PendingView, reply: ReplyView)
    ensures
        resume_step(pending, reply) matches StepView::Call {
            effect: EffectView::Commit { puts },
            ..
        } ==> is_write_set(puts),
{
    if let StepView::Call { effect: EffectView::Commit { puts }, .. } = resume_step(
        pending,
        reply,
    ) {
        match (pending, reply) {
            (PendingView::Deposit { amount, stamp }, ReplyView::Document(doc)) => {
                let account = read_account(doc).unwrap();
                assert(puts == write_set(
                    seq![credited(account, amount)],
                    record(OperationType::Deposit, stamp, amount, account.id, None),
                ));
            },
            (PendingView::Withdraw { amount, stamp }, ReplyView::Document(doc)) => {
                let account = read_account(doc).unwrap();
                assert(puts == write_set(
                    seq![debited(account, amount)],
                    record(OperationType::Withdraw, stamp, amount, account.id, None),
                ));
            },
            (PendingView::TransferTarget { source, amount, stamp }, ReplyView::Document(doc)) => {
                let target = read_account(doc).unwrap();
                assert(puts == write_set(
                    seq![debited(source, amount), credited(target, amount)],
                    record(OperationType::Transfer, stamp, amount, source.id, Some(target.id)),
                ));
            },
            _ => {},
        }
    }
}

/// The commit that opens an account is the write of one operation: the
/// account and the record of its creation.
pub proof fn lemma_creation_is_one_write_set(
    initial_balance: nat,
    account_id: Seq<char>,
    stamp: StampView,
)
    ensures
        create_account_step(initial_balance, account_id, stamp) matches StepView::Call {
            effect: EffectView::Commit { puts },
            ..
        } ==> is_write_set(puts),
{
    if let StepView::Call { effect: EffectView::Commit { puts }, .. } = create_account_step(
        initial_balance,
        account_id,
        stamp,
    ) {
        assert(puts == write_set(
            seq![AccountView { id: account_id, balance: initial_balance }],
            record(OperationType::Create, stamp, initial_balance, account_id, None),
        ));
    }
}

/// The audit records that the engine writes are valid operations: a record
/// of an operation with usable arguments on accounts with well-formed ids
/// names a target exactly if it records a transfer, and carries a positive
/// amount unless it records the creation of an account.
pub proof fn lemma_records_are_valid(
    kind: OperationType,
    stamp: StampView,
    amount: nat,
    source_id: Seq<char>,
    target_id: Seq<char>,
)
    requires
        well_formed_id(stamp.operation_id),
        i64::MIN <= stamp.tx_time <= i64::MAX,
        amount <= u64::MAX,
        kind != OperationType::Create ==> amount > 0,
        well_formed_id(source_id),
        well_formed_id(target_id),
    ensures
        kind != OperationType::Transfer ==> record(kind, stamp, amount, source_id, None).valid(),
        kind == OperationType::Transfer ==> record(
            kind,
            stamp,
            amount,
            source_id,
            Some(target_id),
        ).valid(),
{
}

} // verus!
