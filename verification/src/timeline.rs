//! The order in which the operations of an account are reported: by the time
//! of their commit, earliest first. Operations without a time come first, and
//! operations of one time keep the order in which the store returned them.
use vstd::prelude::*;
use crate::entity::{operation_views, time_view, Operation, OperationView};

verus! {

/// Whether the time `a` is not later than the time `b`. No time at all is
/// earlier than any time.
pub open spec fn not_later(a: Option<int>, b: Option<int>) -> bool {
    match (a, b) {
        (None, _) => true,
        (Some(_), None) => false,
        (Some(x), Some(y)) => x <= y,
    }
}

/// Whether every operation of the list is committed no later than those
/// behind it.
pub open spec fn in_commit_order(operations: Seq<OperationView>) -> bool {
    forall|i: int, j: int|
        0 <= i < j < operations.len() ==> not_later(
            (#[trigger] operations[i]).tx_time,
            (#[trigger] operations[j]).tx_time,
        )
}

/// The list `sorted` with `operation` put behind the last operation that is
/// not later than it.
pub open spec fn insert_by_time(sorted: Seq<OperationView>, operation: OperationView) -> Seq<
    OperationView,
>
    decreases sorted.len(),
{
    if sorted.len() == 0 {
        seq![operation]
    } else if not_later(sorted.last().tx_time, operation.tx_time) {
        sorted.push(operation)
    } else {
        insert_by_time(sorted.drop_last(), operation).push(sorted.last())
    }
}

/// The operations in the order of their commit: each in turn is put behind
/// the last of those before it that is not later.
pub open spec fn by_commit_time(operations: Seq<OperationView>) -> Seq<OperationView>
    decreases operations.len(),
{
    if operations.len() == 0 {
        Seq::empty()
    } else {
        insert_by_time(by_commit_time(operations.drop_last()), operations.last())
    }
}

/// Putting an operation into a list at the place that `insert_by_time`
/// describes is inserting it at the index behind which everything is later.
proof fn lemma_insert_position(sorted: Seq<OperationView>, operation: OperationView, at: int)
    requires
        0 <= at <= sorted.len(),
        forall|j: int| at <= j < sorted.len() ==> !not_later(sorted[j].tx_time, operation.tx_time),
        at > 0 ==> not_later(sorted[at - 1].tx_time, operation.tx_time),
    ensures
        insert_by_time(sorted, operation) == sorted.insert(at, operation),
    decreases sorted.len(),
{
    if sorted.len() == 0 {
        assert(sorted.insert(at, operation) =~= seq![operation]);
    } else if at == sorted.len() {
        assert(sorted.insert(at, operation) =~= sorted.push(operation));
    } else {
        lemma_insert_position(sorted.drop_last(), operation, at);
        assert(sorted.insert(at, operation) =~= sorted.drop_last().insert(at, operation).push(
            sorted.last(),
        ));
    }
}

/// Inserting by time adds the operation and nothing else.
pub proof fn lemma_insert_adds_one(sorted: Seq<OperationView>, operation: OperationView)
    ensures
        insert_by_time(sorted, operation).len() == sorted.len() + 1,
        insert_by_time(sorted, operation).to_multiset() == sorted.to_multiset().insert(operation),
    decreases sorted.len(),
{
    broadcast use vstd::seq_lib::group_to_multiset_ensures;

    if sorted.len() == 0 {
        assert(seq![operation] =~= sorted.push(operation));
    } else if not_later(sorted.last().tx_time, operation.tx_time) {
    } else {
        lemma_insert_adds_one(sorted.drop_last(), operation);
        assert(sorted.drop_last().push(sorted.last()) =~= sorted);
        assert(sorted.drop_last().to_multiset().insert(operation).insert(sorted.last())
            =~= sorted.drop_last().to_multiset().insert(sorted.last()).insert(operation));
    }
}

/// Inserting by time into a list in commit order leaves it in commit order.
pub proof fn lemma_insert_keeps_order(sorted: Seq<OperationView>, operation: OperationView)
    requires
        in_commit_order(sorted),
    ensures
        in_commit_order(insert_by_time(sorted, operation)),
    decreases sorted.len(),
{
    if sorted.len() == 0 {
    } else if not_later(sorted.last().tx_time, operation.tx_time) {
        let out = sorted.push(operation);
        assert forall|i: int, j: int| 0 <= i < j < out.len() implies not_later(
            (#[trigger] out[i]).tx_time,
            (#[trigger] out[j]).tx_time,
        ) by {
            if j == sorted.len() {
                if i < sorted.len() - 1 {
                    assert(not_later(sorted[i].tx_time, sorted[sorted.len() - 1].tx_time));
                }
            }
        }
    } else {
        let front = sorted.drop_last();
        assert(in_commit_order(front)) by {
            assert forall|i: int, j: int| 0 <= i < j < front.len() implies not_later(
                (#[trigger] front[i]).tx_time,
                (#[trigger] front[j]).tx_time,
            ) by {
                assert(not_later(sorted[i].tx_time, sorted[j].tx_time));
            }
        }
        lemma_insert_keeps_order(front, operation);
        lemma_insert_adds_one(front, operation);
        let inner = insert_by_time(front, operation);
        let out = inner.push(sorted.last());
        assert forall|i: int, j: int| 0 <= i < j < out.len() implies not_later(
            (#[trigger] out[i]).tx_time,
            (#[trigger] out[j]).tx_time,
        ) by {
            if j < inner.len() {
                assert(not_later(inner[i].tx_time, inner[j].tx_time));
            } else {
                broadcast use vstd::seq_lib::group_to_multiset_ensures;

                assert(inner.to_multiset().count(inner[i]) > 0);
                if inner[i] == operation {
                } else {
                    assert(front.to_multiset().count(inner[i]) > 0);
                    assert(front.contains(inner[i]));
                    let k = choose|k: int| 0 <= k < front.len() && front[k] == inner[i];
                    assert(not_later(sorted[k].tx_time, sorted[sorted.len() - 1].tx_time));
                }
            }
        }
    }
}

/// The operations by commit time are in commit order, and they are the
/// operations that went in: none lost, none added, none twice.
pub proof fn lemma_by_commit_time_sorts(operations: Seq<OperationView>)
    ensures
        in_commit_order(by_commit_time(operations)),
        by_commit_time(operations).len() == operations.len(),
        by_commit_time(operations).to_multiset() == operations.to_multiset(),
    decreases operations.len(),
{
    broadcast use vstd::seq_lib::group_to_multiset_ensures;

    if operations.len() == 0 {
        assert(operations =~= Seq::empty());
    } else {
        let front = operations.drop_last();
        lemma_by_commit_time_sorts(front);
        lemma_insert_keeps_order(by_commit_time(front), operations.last());
        lemma_insert_adds_one(by_commit_time(front), operations.last());
        assert(front.push(operations.last()) =~= operations);
    }
}

/// Operations that are in commit order already stay as they are.
pub proof fn lemma_ordered_stays(operations: Seq<OperationView>)
    requires
        in_commit_order(operations),
    ensures
        by_commit_time(operations) == operations,
    decreases operations.len(),
{
    if operations.len() == 0 {
        assert(operations =~= Seq::empty());
    } else {
        let front = operations.drop_last();
        assert(in_commit_order(front)) by {
            assert forall|i: int, j: int| 0 <= i < j < front.len() implies not_later(
                (#[trigger] front[i]).tx_time,
                (#[trigger] front[j]).tx_time,
            ) by {
                assert(not_later(operations[i].tx_time, operations[j].tx_time));
            }
        }
        lemma_ordered_stays(front);
        if front.len() > 0 {
            assert(not_later(
                operations[front.len() - 1].tx_time,
                operations[operations.len() - 1].tx_time,
            ));
            assert(front.last() == operations[front.len() - 1]);
        }
        assert(front.push(operations.last()) =~= operations);
    }
}

/// Whether the time `a` is not later than the time `b`.
pub fn is_not_later(a: Option<i64>, b: Option<i64>) -> (yes: bool)
    ensures
        yes == not_later(time_view(a), time_view(b)),
{
    match (a, b) {
        (None, _) => true,
        (Some(_), None) => false,
        (Some(x), Some(y)) => x <= y,
    }
}

/// The index at which an operation of time `time` goes into `sorted`.
fn insert_index(sorted: &Vec<Operation>, time: Option<i64>) -> (at: usize)
    ensures
        at <= sorted.len(),
        forall|j: int|
            at <= j < sorted.len() ==> !not_later(time_view(sorted@[j].tx_time), time_view(time)),
        at > 0 ==> not_later(time_view(sorted@[at - 1].tx_time), time_view(time)),
{
    let mut at: usize = sorted.len();
    while at > 0
        invariant
            at <= sorted.len(),
            forall|j: int|
                at <= j < sorted.len() ==> !not_later(
                    time_view(sorted@[j].tx_time),
                    time_view(time),
                ),
        decreases at,
    {
        if is_not_later(sorted[at - 1].tx_time, time) {
            return at;
        }
        at = at - 1;
    }
    at
}

/// The operations in the order of their commit, earliest first.
pub fn order_operations(operations: Vec<Operation>) -> (ordered: Vec<Operation>)
    ensures
        operation_views(ordered@) == by_commit_time(operation_views(operations@)),
{
    let ghost all = operation_views(operations@);
    let mut rest = operations;
    let mut ordered: Vec<Operation> = Vec::new();
    let ghost mut done: int = 0;
    assert(all.take(0) =~= Seq::empty());
    while rest.len() > 0
        invariant
            0 <= done <= all.len(),
            operation_views(rest@) == all.skip(done),
            operation_views(ordered@) == by_commit_time(all.take(done)),
        decreases rest.len(),
    {
        let ghost before = operation_views(ordered@);
        let ghost waiting = operation_views(rest@);
        let ghost held = rest@;
        let next = rest.remove(0);
        let at = insert_index(&ordered, next.tx_time);
        proof {
            assert(waiting.len() == held.len());
            assert(all.skip(done).len() == all.len() - done);
            assert(waiting[0] == next@);
            assert(all.skip(done)[0] == all[done]);
            assert(rest@ == held.remove(0));
            assert forall|k: int| 0 <= k < rest@.len() implies operation_views(rest@)[k]
                == all.skip(done + 1)[k] by {
                assert(rest@[k] == held[k + 1]);
                assert(waiting[k + 1] == held[k + 1]@);
                assert(all.skip(done)[k + 1] == all[done + k + 1]);
            }
            assert(operation_views(rest@) =~= all.skip(done + 1));
            assert(all.take(done + 1).drop_last() =~= all.take(done));
            assert(all.take(done + 1).last() == next@);
            assert forall|j: int| at <= j < before.len() implies !not_later(
                before[j].tx_time,
                next@.tx_time,
            ) by {
                assert(before[j] == ordered@[j]@);
            }
            if at > 0 {
                assert(before[at - 1] == ordered@[at - 1]@);
            }
            lemma_insert_position(before, next@, at as int);
            assert(operation_views(ordered@.insert(at as int, next)) =~= before.insert(
                at as int,
                next@,
            ));
            done = done + 1;
        }
        ordered.insert(at, next);
    }
    assert(all.take(done) =~= all);
    ordered
}

} // verus!
