//! The balance invariant: every committed movement changes a balance by
//! exactly its amount, no balance is ever negative, and a movement that is
//! refused leaves the balance as it was.
use vstd::prelude::*;
use crate::codec::{account_document, lemma_account_round_trip};
use crate::document::ValueView;
use crate::entity::{AccountView, OperationType};
use crate::error::LedgerError;
use crate::ident::{key_text, well_formed_id};
use crate::model::{
    after_deposit_read,
    after_source_read,
    after_target_read,
    after_withdraw_read,
    can_credit,
    can_debit,
    create_account_step,
    credited,
    debited,
    deposit_step,
    get_account_step,
    movable,
    operations_step,
    read_account,
    record,
    resume_step,
    transfer_step,
    withdraw_step,
};
use crate::state::{OutcomeView, StampView, StepView};
use crate::store::ReplyView;
use crate::store_model::{
    answer,
    holds_account,
    holds_record,
    lemma_keys_differ,
    lemma_store_with_one,
    lemma_store_with_two,
    perform,
    run,
};

verus! {

/// Balance invariant, deposits. A deposit into an account that the store
/// holds either succeeds, and then the store holds the account with exactly
/// the amount added, and the record of the deposit; or the account cannot
/// take the amount, and then the deposit fails and the store is as it was.
pub proof fn lemma_deposit_settles(
    store: Map<Seq<char>, Map<Seq<char>, ValueView>>,
    account: AccountView,
    amount: nat,
    stamp: StampView,
)
    requires
        account.valid(),
        holds_account(store, account),
        movable(account.id, amount, stamp),
        stamp.operation_id != account.id,
    ensures
        ({
            let (after, last) = perform(store, deposit_step(account.id, amount, stamp), 2);
            let updated = credited(account, amount);
            if can_credit(account, amount) {
                &&& last == StepView::Done(OutcomeView::Account(updated))
                &&& updated.valid()
                &&& updated.balance == account.balance + amount
                &&& holds_account(after, updated)
                &&& holds_record(
                    after,
                    record(OperationType::Deposit, stamp, amount, account.id, None),
                )
            } else {
                &&& last == StepView::Failed(LedgerError::InvalidArgument)
                &&& after == store
            }
        }),
{
    let updated = credited(account, amount);
    let operation = record(OperationType::Deposit, stamp, amount, account.id, None);
    lemma_account_round_trip(account);
    lemma_keys_differ(stamp.operation_id, account.id);
    lemma_store_with_one(store, updated, operation);
    let first = deposit_step(account.id, amount, stamp);
    let read = answer(store, first->effect);
    assert(read == ReplyView::Document(Some(account_document(account))));
    let second = resume_step(first->pending, read);
    assert(second == after_deposit_read(Some(account_document(account)), amount, stamp));
    assert(read_account(Some(account_document(account))) == Ok::<AccountView, LedgerError>(
        account,
    ));
    reveal_with_fuel(perform, 3);
}

/// Balance invariant, withdrawals. A withdrawal from an account that the
/// store holds either succeeds, and then the store holds the account with
/// exactly the amount taken, which the account held, and the record of the
/// withdrawal; or the account holds less than the amount, and then the
/// withdrawal fails with `InsufficientFunds` and the store is as it was.
pub proof fn lemma_withdraw_settles(
    store: Map<Seq<char>, Map<Seq<char>, ValueView>>,
    account: AccountView,
    amount: nat,
    stamp: StampView,
)
    requires
        account.valid(),
        holds_account(store, account),
        movable(account.id, amount, stamp),
        stamp.operation_id != account.id,
    ensures
        ({
            let (after, last) = perform(store, withdraw_step(account.id, amount, stamp), 2);
            let updated = debited(account, amount);
            if account.balance >= amount {
                &&& last == StepView::Done(OutcomeView::Account(updated))
                &&& updated.valid()
                &&& updated.balance as int == account.balance as int - amount as int
                &&& holds_account(after, updated)
                &&& holds_record(
                    after,
                    record(OperationType::Withdraw, stamp, amount, account.id, None),
                )
            } else {
                &&& last == StepView::Failed(LedgerError::InsufficientFunds)
                &&& after == store
            }
        }),
{
    let updated = debited(account, amount);
    let operation = record(OperationType::Withdraw, stamp, amount, account.id, None);
    lemma_account_round_trip(account);
    lemma_keys_differ(stamp.operation_id, account.id);
    lemma_store_with_one(store, updated, operation);
    let first = withdraw_step(account.id, amount, stamp);
    let read = answer(store, first->effect);
    assert(read == ReplyView::Document(Some(account_document(account))));
    let second = resume_step(first->pending, read);
    assert(second == after_withdraw_read(Some(account_document(account)), amount, stamp));
    assert(read_account(Some(account_document(account))) == Ok::<AccountView, LedgerError>(
        account,
    ));
    reveal_with_fuel(perform, 3);
}

/// Balance invariant, transfers. A transfer between two different accounts
/// that the store holds either succeeds, and then the store holds the source
/// with exactly the amount taken, the target with exactly the amount added,
/// and one record of the transfer; or the source holds less than the amount,
/// and then the transfer fails with `InsufficientFunds`; or the target cannot
/// take the amount, and then it fails with `InvalidArgument`. Where it fails
/// the store is as it was.
pub proof fn lemma_transfer_settles(
    store: Map<Seq<char>, Map<Seq<char>, ValueView>>,
    source: AccountView,
    target: AccountView,
    amount: nat,
    stamp: StampView,
)
    requires
        source.valid(),
        target.valid(),
        holds_account(store, source),
        holds_account(store, target),
        source.id != target.id,
        movable(source.id, amount, stamp),
        stamp.operation_id != source.id,
        stamp.operation_id != target.id,
    ensures
        ({
            let (after, last) = perform(
                store,
                transfer_step(source.id, target.id, amount, stamp),
                3,
            );
            let paid = debited(source, amount);
            let received = credited(target, amount);
            if source.balance < amount {
                &&& last == StepView::Failed(LedgerError::InsufficientFunds)
                &&& after == store
            } else if !can_credit(target, amount) {
                &&& last == StepView::Failed(LedgerError::InvalidArgument)
                &&& after == store
            } else {
                &&& last == StepView::Done(OutcomeView::Account(paid))
                &&& paid.valid()
                &&& received.valid()
                &&& paid.balance as int == source.balance as int - amount as int
                &&& received.balance == target.balance + amount
                &&& paid.balance + received.balance == source.balance + target.balance
                &&& holds_account(after, paid)
                &&& holds_account(after, received)
                &&& holds_record(
                    after,
                    record(OperationType::Transfer, stamp, amount, source.id, Some(target.id)),
                )
            }
        }),
{
    let paid = debited(source, amount);
    let received = credited(target, amount);
    let operation = record(OperationType::Transfer, stamp, amount, source.id, Some(target.id));
    lemma_account_round_trip(source);
    lemma_account_round_trip(target);
    lemma_keys_differ(stamp.operation_id, source.id);
    lemma_keys_differ(stamp.operation_id, target.id);
    lemma_keys_differ(source.id, target.id);
    lemma_store_with_two(store, paid, received, operation);
    let first = transfer_step(source.id, target.id, amount, stamp);
    let read = answer(store, first->effect);
    assert(read == ReplyView::Document(Some(account_document(source))));
    let second = resume_step(first->pending, read);
    assert(second == after_source_read(
        Some(account_document(source)),
        target.id,
        amount,
        stamp,
    ));
    assert(read_account(Some(account_document(source))) == Ok::<AccountView, LedgerError>(
        source,
    ));
    assert(read_account(Some(account_document(target))) == Ok::<AccountView, LedgerError>(
        target,
    ));
    if source.balance >= amount {
        let again = answer(store, second->effect);
        assert(again == ReplyView::Document(Some(account_document(target))));
        let third = resume_step(second->pending, again);
        assert(third == after_target_read(
            Some(account_document(target)),
            source,
            amount,
            stamp,
        ));
    }
    reveal_with_fuel(perform, 4);
}

/// Opening an account and then looking it up returns the account with the
/// balance it was opened with.
pub proof fn lemma_created_account_is_found(
    store: Map<Seq<char>, Map<Seq<char>, ValueView>>,
    initial_balance: nat,
    account_id: Seq<char>,
    stamp: StampView,
)
    requires
        initial_balance <= u64::MAX,
        well_formed_id(account_id),
        well_formed_id(stamp.operation_id),
        stamp.operation_id != account_id,
    ensures
        ({
            let account = AccountView { id: account_id, balance: initial_balance };
            let (after, last) = perform(
                store,
                create_account_step(initial_balance, account_id, stamp),
                1,
            );
            &&& last == StepView::Done(OutcomeView::Account(account))
            &&& holds_account(after, account)
            &&& holds_record(
                after,
                record(OperationType::Create, stamp, initial_balance, account_id, None),
            )
            &&& perform(after, get_account_step(account_id), 1) == (
                after,
                StepView::Done(OutcomeView::Account(account)),
            )
        }),
{
    let account = AccountView { id: account_id, balance: initial_balance };
    let operation = record(OperationType::Create, stamp, initial_balance, account_id, None);
    lemma_account_round_trip(account);
    lemma_keys_differ(stamp.operation_id, account_id);
    lemma_store_with_one(store, account, operation);
    assert(read_account(Some(account_document(account))) == Ok::<AccountView, LedgerError>(
        account,
    ));
    reveal_with_fuel(perform, 2);
}

/// Looking up an account that the store does not hold fails with `NotFound`,
/// and so do a deposit, a withdrawal, a transfer and the list of operations.
pub proof fn lemma_unknown_account_is_not_found(
    store: Map<Seq<char>, Map<Seq<char>, ValueView>>,
    id: Seq<char>,
    other_id: Seq<char>,
    amount: nat,
    stamp: StampView,
)
    requires
        movable(id, amount, stamp),
        well_formed_id(other_id),
        !store.contains_key(key_text(id)),
    ensures
        perform(store, get_account_step(id), 1) == (store, StepView::Failed(LedgerError::NotFound)),
        perform(store, deposit_step(id, amount, stamp), 1) == (
            store,
            StepView::Failed(LedgerError::NotFound),
        ),
        perform(store, withdraw_step(id, amount, stamp), 1) == (
            store,
            StepView::Failed(LedgerError::NotFound),
        ),
        perform(store, transfer_step(id, other_id, amount, stamp), 1) == (
            store,
            StepView::Failed(LedgerError::NotFound),
        ),
        perform(store, operations_step(id), 1) == (store, StepView::Failed(LedgerError::NotFound)),
{
    reveal_with_fuel(perform, 2);
}

/// One movement on an account, seen from the account: an amount paid in, by
/// a deposit or by a transfer from elsewhere, or an amount paid out, by a
/// withdrawal or by a transfer to elsewhere.
pub enum Movement {
    Credit { amount: nat },
    Debit { amount: nat },
}

/// The account after a movement: changed by the amount where the engine
/// commits the movement, and as it was where the engine refuses it.
pub open spec fn moved(account: AccountView, movement: Movement) -> AccountView {
    match movement {
        Movement::Credit { amount } => if can_credit(account, amount) {
            credited(account, amount)
        } else {
            account
        },
        Movement::Debit { amount } => if can_debit(account, amount) {
            debited(account, amount)
        } else {
            account
        },
    }
}

/// The account after a sequence of movements.
pub open spec fn moved_by_all(account: AccountView, movements: Seq<Movement>) -> AccountView
    decreases movements.len(),
{
    if movements.len() == 0 {
        account
    } else {
        moved(moved_by_all(account, movements.drop_last()), movements.last())
    }
}

/// A valid account stays valid, and keeps its id, through any movements.
pub proof fn lemma_movements_keep_valid(account: AccountView, movements: Seq<Movement>)
    requires
        account.valid(),
    ensures
        moved_by_all(account, movements).valid(),
        moved_by_all(account, movements).id == account.id,
    decreases movements.len(),
{
    if movements.len() > 0 {
        lemma_movements_keep_valid(account, movements.drop_last());
    }
}

/// Balance invariant, sequences. Through any sequence of movements on an
/// account, each movement that is committed changes the balance by exactly
/// its amount, each that is refused leaves it as it was, and no balance on
/// the way is negative: a debit is committed only where the account holds
/// the amount.
pub proof fn lemma_balance_invariant(account: AccountView, movements: Seq<Movement>, i: int)
    requires
        account.valid(),
        0 <= i < movements.len(),
    ensures
        ({
            let before = moved_by_all(account, movements.take(i));
            let after = moved_by_all(account, movements.take(i + 1));
            &&& before.valid()
            &&& after.valid()
            &&& after.id == before.id
            &&& match movements[i] {
                Movement::Credit { amount } => if can_credit(before, amount) {
                    after.balance as int == before.balance as int + amount as int
                } else {
                    after == before
                },
                Movement::Debit { amount } => if before.balance >= amount {
                    after.balance as int == before.balance as int - amount as int
                } else {
                    after == before
                },
            }
        }),
{
    lemma_movements_keep_valid(account, movements.take(i));
    lemma_movements_keep_valid(account, movements.take(i + 1));
    assert(movements.take(i + 1).drop_last() =~= movements.take(i));
    assert(movements.take(i + 1).last() == movements[i]);
}

/// A deposit is a credit, a withdrawal a debit: run against a store that
/// holds the account, each leaves the store holding the account as the
/// movement leaves it.
pub proof fn lemma_operations_are_movements(
    store: Map<Seq<char>, Map<Seq<char>, ValueView>>,
    account: AccountView,
    amount: nat,
    stamp: StampView,
)
    requires
        account.valid(),
        holds_account(store, account),
        movable(account.id, amount, stamp),
        stamp.operation_id != account.id,
    ensures
        holds_account(
            perform(store, deposit_step(account.id, amount, stamp), 2).0,
            moved(account, Movement::Credit { amount }),
        ),
        holds_account(
            perform(store, withdraw_step(account.id, amount, stamp), 2).0,
            moved(account, Movement::Debit { amount }),
        ),
{
    lemma_deposit_settles(store, account, amount, stamp);
    lemma_withdraw_settles(store, account, amount, stamp);
}

/// A movement asked of the engine: a deposit into an account or a withdrawal
/// from it, with the stamp under which it is recorded.
pub struct Instruction {
    pub movement: Movement,
    pub stamp: StampView,
}

impl Instruction {
    /// The amount that the instruction moves.
    pub open spec fn amount(self) -> nat {
        match self.movement {
            Movement::Credit { amount } => amount,
            Movement::Debit { amount } => amount,
        }
    }

    /// The first step of the operation that carries the instruction out on the
    /// account `id`.
    pub open spec fn first_step(self, id: Seq<char>) -> StepView {
        match self.movement {
            Movement::Credit { amount } => deposit_step(id, amount, self.stamp),
            Movement::Debit { amount } => withdraw_step(id, amount, self.stamp),
        }
    }
}

/// The movements of a sequence of instructions.
pub open spec fn movements_of(instructions: Seq<Instruction>) -> Seq<Movement> {
    instructions.map_values(|o: Instruction| o.movement)
}

/// The store after the engine has carried out `instructions` on the account `id`,
/// one after the other, against a store that works.
pub open spec fn replayed(
    store: Map<Seq<char>, Map<Seq<char>, ValueView>>,
    id: Seq<char>,
    instructions: Seq<Instruction>,
) -> Map<Seq<char>, Map<Seq<char>, ValueView>>
    decreases instructions.len(),
{
    if instructions.len() == 0 {
        store
    } else {
        perform(replayed(store, id, instructions.drop_last()), instructions.last().first_step(id), 2).0
    }
}

/// Balance invariant, through the engine. After any sequence of deposits
/// and withdrawals that the engine has carried out on an account, the store
/// holds the account as its movements leave it: valid, under the same id,
/// each committed movement counted with exactly its amount and each refused
/// one not at all.
pub proof fn lemma_replayed_account(
    store: Map<Seq<char>, Map<Seq<char>, ValueView>>,
    account: AccountView,
    instructions: Seq<Instruction>,
)
    requires
        account.valid(),
        holds_account(store, account),
        forall|i: int|
            0 <= i < instructions.len() ==> movable(
                account.id,
                (#[trigger] instructions[i]).amount(),
                instructions[i].stamp,
            ) && instructions[i].stamp.operation_id != account.id,
    ensures
        moved_by_all(account, movements_of(instructions)).valid(),
        holds_account(
            replayed(store, account.id, instructions),
            moved_by_all(account, movements_of(instructions)),
        ),
    decreases instructions.len(),
{
    lemma_movements_keep_valid(account, movements_of(instructions));
    if instructions.len() > 0 {
        let front = instructions.drop_last();
        let last = instructions.last();
        lemma_replayed_account(store, account, front);
        let before = moved_by_all(account, movements_of(front));
        lemma_movements_keep_valid(account, movements_of(front));
        assert(movements_of(instructions).drop_last() =~= movements_of(front));
        assert(movements_of(instructions).last() == last.movement);
        assert(movable(account.id, instructions[instructions.len() - 1].amount(), last.stamp));
        lemma_operations_are_movements(
            replayed(store, account.id, front),
            before,
            last.amount(),
            last.stamp,
        );
    }
}

} // verus!
