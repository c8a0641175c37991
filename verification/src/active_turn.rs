//! The tasks of the turn that is running.

use crate::outside::new_mutex;
use crate::outside::task_entries;
use crate::outside::tasks_drain;
use crate::outside::tasks_insert;
use crate::outside::tasks_is_empty;
use crate::outside::tasks_new;
use crate::outside::tasks_swap_remove;
use crate::turn_state::TurnState;
use crate::turn_state::TurnTypes;
use indexmap::IndexMap;
use std::sync::Arc;
use tokio::sync::Mutex;
use tokio::sync::Notify;
use tokio::task::JoinHandle;
use tokio_util::sync::CancellationToken;
use tokio_util::task::AbortOnDropHandle;
use vstd::prelude::*;

verus! {

/// What a task works on.
#[derive(Clone, Copy, Debug, PartialEq, Eq, Structural)]
pub enum TaskKind {
    Regular,
    Review,
    Compact,
}

/// The context of a turn.
#[derive(Debug)]
pub struct TurnContext {
    /// The id of the submission that the turn answers.
    pub sub_id: String,
}

/// What does the work of a task.
pub trait AnySessionTask: Send + Sync {
    /// Whether `answer` is one that the task may give when it is asked about its span. The answer
    /// need not be the same at all times. A kind of task of which no more is known may give
    /// either; one of which more is known says so by a definition of its own.
    open spec fn may_answer(&self, answer: bool) -> bool {
        true
    }

    /// Asks whether the task's span shows how many tokens the turn used.
    fn records_turn_token_usage_on_span(&self) -> (r: bool)
        ensures
            self.may_answer(r),
    ;
}

/// What extensions keep for a turn.
pub trait ExtensionData: Send + Sync {

}

/// What records how long something took when it is dropped.
pub trait Timer: Send + Sync {

}

/// A task of the running turn.
pub struct RunningTask {
    pub done: Arc<Notify>,
    pub kind: TaskKind,
    pub task: Arc<dyn AnySessionTask>,
    pub cancellation_token: CancellationToken,
    pub handle: AbortOnDropHandle<()>,
    pub turn_context: Arc<TurnContext>,
    pub turn_extension_data: Arc<dyn ExtensionData>,
    /// Dropped with the task, to record how long the turn took.
    pub _timer: Option<Box<dyn Timer>>,
}

/// What is left to say of a task that was taken out of the turn.
#[derive(Debug)]
pub struct RemovedTask {
    pub kind: TaskKind,
    pub records_turn_token_usage_on_span: bool,
    pub active_turn_is_empty: bool,
}

/// Metadata about the currently running turn.
#[verifier::reject_recursive_types(T)]
pub struct ActiveTurn<T: TurnTypes> {
    pub tasks: IndexMap<String, RunningTask>,
    pub turn_state: Arc<Mutex<TurnState<T>>>,
    pub pending_turn_context: Option<Arc<TurnContext>>,
}

/// Whether there is a task under `id` at `i`.
pub open spec fn is_task_at(entries: Seq<(Seq<char>, RunningTask)>, id: Seq<char>, i: int) -> bool {
    0 <= i < entries.len() && entries[i].0 == id
}

/// Whether there is a task under `id`.
pub open spec fn has_task(entries: Seq<(Seq<char>, RunningTask)>, id: Seq<char>) -> bool {
    exists|i: int| is_task_at(entries, id, i)
}

/// Where the task under `id` is.
pub open spec fn place_of(entries: Seq<(Seq<char>, RunningTask)>, id: Seq<char>) -> int {
    choose|i: int| is_task_at(entries, id, i)
}

/// The task under `id`.
pub open spec fn task_at(entries: Seq<(Seq<char>, RunningTask)>, id: Seq<char>) -> RunningTask {
    entries[place_of(entries, id)].1
}

/// The entries with `task` under `id`: in the place of the one that was there, or else at the
/// end.
pub open spec fn with_task(
    entries: Seq<(Seq<char>, RunningTask)>,
    id: Seq<char>,
    task: RunningTask,
) -> Seq<(Seq<char>, RunningTask)> {
    if has_task(entries, id) {
        entries.update(place_of(entries, id), (id, task))
    } else {
        entries.push((id, task))
    }
}

/// The entries without the one under `id`, whose place the last one takes.
pub open spec fn without_task(entries: Seq<(Seq<char>, RunningTask)>, id: Seq<char>) -> Seq<
    (Seq<char>, RunningTask),
> {
    if has_task(entries, id) {
        entries.update(place_of(entries, id), entries.last()).drop_last()
    } else {
        entries
    }
}

/// The tasks of the entries, in their order.
pub open spec fn tasks_in_order(entries: Seq<(Seq<char>, RunningTask)>) -> Seq<RunningTask> {
    entries.map_values(|entry: (Seq<char>, RunningTask)| entry.1)
}

/// Whether no id occurs twice.
pub open spec fn distinct_ids(entries: Seq<(Seq<char>, RunningTask)>) -> bool {
    forall|i: int, j: int|
        0 <= i < j < entries.len() ==> (#[trigger] entries[i]).0 != (#[trigger] entries[j]).0
}

/// Whether each task is found under the submission id of its own context.
pub open spec fn found_by_sub_id(entries: Seq<(Seq<char>, RunningTask)>) -> bool {
    forall|i: int|
        0 <= i < entries.len() ==> (#[trigger] entries[i]).0 == entries[i].1.turn_context.sub_id@
}

/// Whether `lock` is what `Mutex::new` made around `state`.
pub closed spec fn made_around<T: TurnTypes>(
    lock: Mutex<TurnState<T>>,
    state: TurnState<T>,
) -> bool {
    call_ensures(new_mutex::<TurnState<T>>, (state,), lock)
}

/// Whether `AbortOnDropHandle::detach` was called on `handle`.
pub open spec fn detached(handle: AbortOnDropHandle<()>) -> bool {
    exists|plain: JoinHandle<()>| #[trigger]
        call_ensures(AbortOnDropHandle::<()>::detach, (handle,), plain)
}

/// Law: adding and removing tasks never makes an id occur twice, and an id that was removed is
/// gone.
pub proof fn ids_stay_distinct(
    entries: Seq<(Seq<char>, RunningTask)>,
    id: Seq<char>,
    task: RunningTask,
)
    requires
        distinct_ids(entries),
    ensures
        distinct_ids(with_task(entries, id, task)),
        distinct_ids(without_task(entries, id)),
        !has_task(without_task(entries, id), id),
{
    assert forall|i: int| 0 <= i < entries.len() && !has_task(entries, id) implies (
    #[trigger] entries[i]).0 != id by {
        assert(!is_task_at(entries, id, i));
    }
    if has_task(entries, id) {
        assert(is_task_at(entries, id, place_of(entries, id)));
    }
}

/// Law: each task is found under the submission id of its own context, if every task was added
/// under that id.
pub proof fn tasks_stay_found_by_sub_id(
    entries: Seq<(Seq<char>, RunningTask)>,
    id: Seq<char>,
    task: RunningTask,
)
    requires
        found_by_sub_id(entries),
    ensures
        found_by_sub_id(with_task(entries, task.turn_context.sub_id@, task)),
        found_by_sub_id(without_task(entries, id)),
        found_by_sub_id(Seq::empty()),
{
    let sub_id = task.turn_context.sub_id@;
    if has_task(entries, sub_id) {
        assert(is_task_at(entries, sub_id, place_of(entries, sub_id)));
    }
    if has_task(entries, id) {
        assert(is_task_at(entries, id, place_of(entries, id)));
    }
}

/// Law: a task that was added is the one found under its id, and every other task is found as
/// before.
pub proof fn added_task_is_found(
    entries: Seq<(Seq<char>, RunningTask)>,
    id: Seq<char>,
    task: RunningTask,
    other: Seq<char>,
)
    requires
        distinct_ids(entries),
    ensures
        has_task(with_task(entries, id, task), id),
        task_at(with_task(entries, id, task), id) == task,
        other != id ==> has_task(with_task(entries, id, task), other) == has_task(entries, other),
        other != id && has_task(entries, other) ==> task_at(
            with_task(entries, id, task),
            other,
        ) == task_at(entries, other),
{
    ids_stay_distinct(entries, id, task);
    let added = with_task(entries, id, task);
    let place = if has_task(entries, id) {
        place_of(entries, id)
    } else {
        entries.len() as int
    };
    if has_task(entries, id) {
        assert(is_task_at(entries, id, place));
    }
    assert(is_task_at(added, id, place));
    if other != id {
        if has_task(entries, other) {
            assert(is_task_at(added, other, place_of(entries, other)));
        }
        if has_task(added, other) {
            assert(is_task_at(entries, other, place_of(added, other)));
        }
    }
}

/// Law: removing a task takes away that one and no other.
pub proof fn other_tasks_stay(
    entries: Seq<(Seq<char>, RunningTask)>,
    id: Seq<char>,
    other: Seq<char>,
)
    requires
        distinct_ids(entries),
        other != id,
    ensures
        has_task(without_task(entries, id), other) == has_task(entries, other),
        has_task(entries, other) ==> task_at(without_task(entries, id), other) == task_at(
            entries,
            other,
        ),
        without_task(entries, id).len() == entries.len() - if has_task(entries, id) {
            1int
        } else {
            0int
        },
{
    let left = without_task(entries, id);
    if has_task(entries, id) {
        let place = place_of(entries, id);
        let last = entries.len() - 1;
        assert(is_task_at(entries, id, place));
        ids_stay_distinct(entries, id, entries[0].1);
        if has_task(entries, other) {
            let from = place_of(entries, other);
            assert(is_task_at(
                left,
                other,
                if from == last {
                    place
                } else {
                    from
                },
            ));
        }
        if has_task(left, other) {
            let to = place_of(left, other);
            assert(is_task_at(
                entries,
                other,
                if to == place {
                    last
                } else {
                    to
                },
            ));
        }
    }
}

/// Law: there is a task under an id exactly if some entry has that id, and the task found under it
/// is that entry's. Ids are distinct exactly if no two entries have the same one.
pub proof fn tasks_are_found_by_their_ids(entries: Seq<(Seq<char>, RunningTask)>, id: Seq<char>)
    ensures
        has_task(entries, id) <==> exists|i: int|
            0 <= i < entries.len() && (#[trigger] entries[i]).0 == id,
        distinct_ids(entries) <==> forall|i: int, j: int|
            0 <= i < j < entries.len() ==> (#[trigger] entries[i]).0 != (#[trigger] entries[j]).0,
        distinct_ids(entries) ==> forall|i: int|
            0 <= i < entries.len() && (#[trigger] entries[i]).0 == id ==> task_at(entries, id)
                == entries[i].1,
        forall|i: int|
            0 <= i < entries.len() && (#[trigger] entries[i]).0 == id ==> is_task_at(
                entries,
                id,
                i,
            ),
{
    assert(forall|i: int|
        0 <= i < entries.len() && (#[trigger] entries[i]).0 == id ==> is_task_at(entries, id, i));
    if has_task(entries, id) {
        assert(is_task_at(entries, id, place_of(entries, id)));
    }
}

/// Law: a task that is added takes the place of the one under its id, or else the place behind all
/// the others; no other entry moves or changes.
pub proof fn addition_keeps_places(
    entries: Seq<(Seq<char>, RunningTask)>,
    id: Seq<char>,
    task: RunningTask,
)
    requires
        distinct_ids(entries),
    ensures
        forall|i: int|
            0 <= i < entries.len() && (#[trigger] entries[i]).0 == id ==> with_task(
                entries,
                id,
                task,
            ) == entries.update(i, (id, task)),
        (forall|i: int| 0 <= i < entries.len() ==> (#[trigger] entries[i]).0 != id) ==> with_task(
            entries,
            id,
            task,
        ) == entries.push((id, task)),
{
    tasks_are_found_by_their_ids(entries, id);
    if has_task(entries, id) {
        assert(is_task_at(entries, id, place_of(entries, id)));
    }
}

/// Law: when a task is removed, the last entry takes its place, and every other entry stays as and
/// where it is; if there is no such task, nothing changes.
pub proof fn removal_moves_only_the_last(entries: Seq<(Seq<char>, RunningTask)>, id: Seq<char>)
    requires
        distinct_ids(entries),
    ensures
        forall|i: int|
            0 <= i < entries.len() && (#[trigger] entries[i]).0 == id ==> without_task(entries, id)
                == entries.update(i, entries.last()).drop_last(),
        (forall|i: int| 0 <= i < entries.len() ==> (#[trigger] entries[i]).0 != id)
            ==> without_task(entries, id) == entries,
{
    tasks_are_found_by_their_ids(entries, id);
    if has_task(entries, id) {
        assert(is_task_at(entries, id, place_of(entries, id)));
    }
}

/// Law: the entries of a turn are those of its map of tasks.
pub proof fn entries_are_those_of_the_map<T: TurnTypes>(turn: ActiveTurn<T>)
    ensures
        turn.entries() == task_entries(turn.tasks),
{
}

/// Law: tasks are handed out one for each entry, in the order of the entries.
pub proof fn tasks_are_handed_out_in_order(entries: Seq<(Seq<char>, RunningTask)>)
    ensures
        tasks_in_order(entries).len() == entries.len(),
        forall|i: int|
            0 <= i < entries.len() ==> #[trigger] tasks_in_order(entries)[i] == entries[i].1,
{
}

/// Law: if tasks are found by the submission ids of their contexts, each entry has the id of its
/// own task's context.
pub proof fn entries_have_the_ids_of_their_contexts(entries: Seq<(Seq<char>, RunningTask)>)
    ensures
        found_by_sub_id(entries) <==> forall|i: int|
            0 <= i < entries.len() ==> (#[trigger] entries[i]).0
                == entries[i].1.turn_context.sub_id@,
{
}

/// Law: a handle counts as detached only if it was given to `AbortOnDropHandle::detach`.
pub proof fn detaching_is_a_call(handle: AbortOnDropHandle<()>)
    ensures
        detached(handle) <==> exists|plain: JoinHandle<()>| #[trigger]
            call_ensures(AbortOnDropHandle::<()>::detach, (handle,), plain),
{
}

/// A lock counts as made around a state only if it was made from that state.
proof fn lemma_lock_is_made_from_its_state<T: TurnTypes>(
    lock: Mutex<TurnState<T>>,
    state: TurnState<T>,
)
    ensures
        made_around(lock, state) <==> call_ensures(new_mutex::<TurnState<T>>, (state,), lock),
{
}

/// Law: adding a task under a new id and removing it again leaves everything as it was.
pub proof fn removal_undoes_addition(
    entries: Seq<(Seq<char>, RunningTask)>,
    id: Seq<char>,
    task: RunningTask,
)
    requires
        distinct_ids(entries),
        !has_task(entries, id),
    ensures
        without_task(with_task(entries, id, task), id) == entries,
{
    let added = with_task(entries, id, task);
    added_task_is_found(entries, id, task, id);
    ids_stay_distinct(entries, id, task);
    assert(is_task_at(added, id, place_of(added, id)));
    assert(is_task_at(added, id, entries.len() as int));
    assert(without_task(added, id) =~= entries);
}

/// Lets a task that was taken out of the turn go on without being watched, and tells what is left
/// to say of it, with what the task answered when it was asked about its span.
pub fn dismiss_task(
    task: RunningTask,
    records_turn_token_usage_on_span: bool,
    active_turn_is_empty: bool,
) -> (r: RemovedTask)
    ensures
        r == (RemovedTask {
            kind: task.kind,
            records_turn_token_usage_on_span,
            active_turn_is_empty,
        }),
        detached(task.handle),
        exists|plain: JoinHandle<()>| #[trigger]
            call_ensures(AbortOnDropHandle::<()>::detach, (task.handle,), plain),
{
    let _ = task.handle.detach();
    RemovedTask { kind: task.kind, records_turn_token_usage_on_span, active_turn_is_empty }
}

impl<T: TurnTypes> Default for ActiveTurn<T> {
    fn default() -> (r: Self)
        ensures
            task_entries(r.tasks) == Seq::<(Seq<char>, RunningTask)>::empty(),
            r.entries().len() == 0,
            exists|state: TurnState<T>|
                (#[trigger] made_around(*r.turn_state, state)) && state@.is_initial(),
            r.pending_turn_context is None,
    {
        let state: TurnState<T> = TurnState::default();
        let turn_state = Arc::new(new_mutex(state));
        let r = ActiveTurn { tasks: tasks_new(), turn_state, pending_turn_context: None };
        assert(made_around(*r.turn_state, state));
        r
    }
}

impl<T: TurnTypes> ActiveTurn<T> {
    /// The tasks with their ids, in order.
    pub open spec fn entries(self) -> Seq<(Seq<char>, RunningTask)> {
        task_entries(self.tasks)
    }

    /// Adds a task under the submission id of its context. A task that was there is dropped, and
    /// a context that was pending for that id no longer is.
    pub fn add_task(&mut self, task: RunningTask)
        ensures
            final(self).entries() == with_task(
                old(self).entries(),
                task.turn_context.sub_id@,
                task,
            ),
            distinct_ids(final(self).entries()),
            forall|i: int|
                0 <= i < old(self).entries().len() && (#[trigger] old(self).entries()[i]).0
                    == task.turn_context.sub_id@ ==> final(self).entries()
                    == old(self).entries().update(i, (task.turn_context.sub_id@, task)),
            (forall|i: int|
                0 <= i < old(self).entries().len() ==> (#[trigger] old(self).entries()[i]).0
                    != task.turn_context.sub_id@) ==> final(self).entries()
                == old(self).entries().push((task.turn_context.sub_id@, task)),
            final(self).pending_turn_context == match old(self).pending_turn_context {
                Some(context) if context.sub_id@ == task.turn_context.sub_id@ => None,
                pending => pending,
            },
            final(self).turn_state == old(self).turn_state,
    {
        let sub_id = task.turn_context.sub_id.clone();
        let arrived = match &self.pending_turn_context {
            Some(context) => context.sub_id == sub_id,
            None => false,
        };
        if arrived {
            self.pending_turn_context = None;
        }
        let _ = tasks_insert(&mut self.tasks, sub_id, task);
        proof {
            ids_stay_distinct(old(self).entries(), task.turn_context.sub_id@, task);
            addition_keeps_places(old(self).entries(), task.turn_context.sub_id@, task);
        }
    }

    /// Takes away the task under `sub_id`, which goes on without being watched, and tells what
    /// is left to say of it. The task is asked about its span as it is taken away.
    pub fn remove_task(&mut self, sub_id: &str) -> (r: Option<RemovedTask>)
        ensures
            r is Some == has_task(old(self).entries(), sub_id@),
            r matches Some(removed) ==> {
                let task = task_at(old(self).entries(), sub_id@);
                &&& removed.kind == task.kind
                &&& task.task.may_answer(removed.records_turn_token_usage_on_span)
                &&& removed.active_turn_is_empty == (final(self).entries().len() == 0)
                &&& detached(task.handle)
                &&& exists|plain: JoinHandle<()>| #[trigger]
                    call_ensures(AbortOnDropHandle::<()>::detach, (task.handle,), plain)
            },
            r is Some <==> exists|i: int|
                0 <= i < old(self).entries().len() && (#[trigger] old(self).entries()[i]).0
                    == sub_id@,
            forall|i: int|
                0 <= i < old(self).entries().len() && (#[trigger] old(self).entries()[i]).0
                    == sub_id@ ==> {
                    &&& r matches Some(removed)
                    &&& removed.kind == old(self).entries()[i].1.kind
                    &&& final(self).entries() == old(self).entries().update(
                        i,
                        old(self).entries().last(),
                    ).drop_last()
                },
            r is None ==> final(self).entries() == old(self).entries(),
            final(self).entries() == without_task(old(self).entries(), sub_id@),
            distinct_ids(final(self).entries()),
            !has_task(final(self).entries(), sub_id@),
            final(self).turn_state == old(self).turn_state,
            final(self).pending_turn_context == old(self).pending_turn_context,
    {
        let removed = tasks_swap_remove(&mut self.tasks, sub_id);
        proof {
            removal_moves_only_the_last(old(self).entries(), sub_id@);
            tasks_are_found_by_their_ids(old(self).entries(), sub_id@);
        }
        match removed {
            Some(task) => {
                let records_turn_token_usage_on_span =
                    task.task.records_turn_token_usage_on_span();
                let active_turn_is_empty = tasks_is_empty(&self.tasks);
                Some(
                    dismiss_task(task, records_turn_token_usage_on_span, active_turn_is_empty),
                )
            },
            None => None,
        }
    }

    /// Takes away all the tasks and hands them out in order.
    pub fn drain_tasks(&mut self) -> (r: Vec<RunningTask>)
        ensures
            r@ == tasks_in_order(old(self).entries()),
            r@.len() == old(self).entries().len(),
            forall|i: int| 0 <= i < r@.len() ==> #[trigger] r@[i] == old(self).entries()[i].1,
            final(self).entries() == Seq::<(Seq<char>, RunningTask)>::empty(),
            final(self).turn_state == old(self).turn_state,
            final(self).pending_turn_context == old(self).pending_turn_context,
    {
        tasks_drain(&mut self.tasks)
    }
}

} // verus!
