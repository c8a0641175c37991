//! What the library takes from outside crates: their types, and contracts of the functions of
//! theirs that it calls. Nothing in this file is proved.

use crate::active_turn::distinct_ids;
use crate::active_turn::has_task;
use crate::active_turn::task_at;
use crate::active_turn::tasks_in_order;
use crate::active_turn::with_task;
use crate::active_turn::without_task;
use crate::active_turn::RunningTask;
use indexmap::IndexMap;
use tokio::sync::oneshot;
use tokio::sync::Mutex;
use tokio::sync::Notify;
use tokio::task::JoinError;
use tokio::task::JoinHandle;
use tokio_util::sync::CancellationToken;
use tokio_util::task::AbortOnDropHandle;
use vstd::prelude::*;

verus! {

/// The sending half of a one-shot channel. Dropping it tells the receiver that no answer will
/// come.
#[verifier::external_type_specification]
#[verifier::external_body]
#[verifier::reject_recursive_types(T)]
pub struct ExSender<T>(oneshot::Sender<T>);

/// A lock that is waited for without blocking a thread.
#[verifier::external_type_specification]
#[verifier::external_body]
#[verifier::reject_recursive_types(T)]
pub struct ExMutex<T: ?Sized>(Mutex<T>);

/// What wakes those who wait for a task to be done.
#[verifier::external_type_specification]
#[verifier::external_body]
pub struct ExNotify(Notify);

/// What asks a task to stop.
#[verifier::external_type_specification]
#[verifier::external_body]
pub struct ExCancellationToken(CancellationToken);

/// A handle to a task; the task goes on if it is dropped.
#[verifier::external_type_specification]
#[verifier::external_body]
#[verifier::reject_recursive_types(T)]
pub struct ExJoinHandle<T>(JoinHandle<T>);

/// Why a task did not run to its end.
#[verifier::external_type_specification]
#[verifier::external_body]
pub struct ExJoinError(JoinError);

/// A handle to a task; the task is aborted if it is dropped.
#[verifier::external_type_specification]
#[verifier::external_body]
#[verifier::reject_recursive_types(T)]
pub struct ExAbortOnDropHandle<T>(AbortOnDropHandle<T>);

/// `AbortOnDropHandle::detach` hands back the plain handle, so that the task goes on without
/// one. The contract claims nothing of the handle: what it does shows only as the task runs.
pub assume_specification<T>[ AbortOnDropHandle::<T>::detach ](
    handle: AbortOnDropHandle<T>,
) -> JoinHandle<T>
;

/// `Mutex::new` makes a lock around a value. The contract claims nothing of the lock: what it
/// guards may be changed through any of its references.
#[verifier::external_body]
pub(crate) fn new_mutex<T>(value: T) -> (r: Mutex<T>) {
    Mutex::new(value)
}

/// A map that keeps its entries in an order.
#[verifier::external_type_specification]
#[verifier::external_body]
#[verifier::reject_recursive_types(K)]
#[verifier::reject_recursive_types(V)]
#[verifier::reject_recursive_types(S)]
pub struct ExIndexMap<K, V, S>(IndexMap<K, V, S>);

/// The tasks in a map with their ids, in the order of the map.
pub uninterp spec fn task_entries(tasks: IndexMap<String, RunningTask>) -> Seq<
    (Seq<char>, RunningTask),
>;

/// `IndexMap::new` makes a map without entries.
#[verifier::external_body]
pub(crate) fn tasks_new() -> (r: IndexMap<String, RunningTask>)
    ensures
        task_entries(r) == Seq::<(Seq<char>, RunningTask)>::empty(),
{
    IndexMap::new()
}

/// `IndexMap::insert` puts a task under an id: in the place of the one that was there, which it
/// hands back, or else at the end. No id ever occurs twice in a map.
#[verifier::external_body]
pub(crate) fn tasks_insert(
    tasks: &mut IndexMap<String, RunningTask>,
    id: String,
    task: RunningTask,
) -> (r: Option<RunningTask>)
    ensures
        distinct_ids(task_entries(*old(tasks))),
        task_entries(*final(tasks)) == with_task(task_entries(*old(tasks)), id@, task),
        r == if has_task(task_entries(*old(tasks)), id@) {
            Some(task_at(task_entries(*old(tasks)), id@))
        } else {
            None
        },
{
    tasks.insert(id, task)
}

/// `IndexMap::swap_remove` takes away the task under an id and hands it back, if there is one;
/// the last entry then takes its place. No id ever occurs twice in a map.
#[verifier::external_body]
pub(crate) fn tasks_swap_remove(
    tasks: &mut IndexMap<String, RunningTask>,
    id: &str,
) -> (r: Option<RunningTask>)
    ensures
        distinct_ids(task_entries(*old(tasks))),
        task_entries(*final(tasks)) == without_task(task_entries(*old(tasks)), id@),
        r == if has_task(task_entries(*old(tasks)), id@) {
            Some(task_at(task_entries(*old(tasks)), id@))
        } else {
            None
        },
{
    tasks.swap_remove(id)
}

/// `IndexMap::is_empty` tells whether a map has no entries.
#[verifier::external_body]
pub(crate) fn tasks_is_empty(tasks: &IndexMap<String, RunningTask>) -> (r: bool)
    ensures
        r == (task_entries(*tasks).len() == 0),
{
    tasks.is_empty()
}

/// `IndexMap::drain` over the full range takes away all the entries and hands them out in
/// order. No id ever occurs twice in a map.
#[verifier::external_body]
pub(crate) fn tasks_drain(tasks: &mut IndexMap<String, RunningTask>) -> (r: Vec<RunningTask>)
    ensures
        distinct_ids(task_entries(*old(tasks))),
        task_entries(*final(tasks)) == Seq::<(Seq<char>, RunningTask)>::empty(),
        r@ == tasks_in_order(task_entries(*old(tasks))),
{
    tasks.drain(..).map(|(_, task)| task).collect()
}

} // verus!
