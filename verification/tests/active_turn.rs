use std::sync::atomic::AtomicBool;
use std::sync::atomic::Ordering;
use std::sync::Arc;
use tokio::sync::oneshot;
use tokio::sync::Notify;
use tokio_util::sync::CancellationToken;
use tokio_util::task::AbortOnDropHandle;
use turn_lifecycle::active_turn::dismiss_task;
use turn_lifecycle::active_turn::ActiveTurn;
use turn_lifecycle::active_turn::AnySessionTask;
use turn_lifecycle::active_turn::ExtensionData;
use turn_lifecycle::active_turn::RunningTask;
use turn_lifecycle::active_turn::TaskKind;
use turn_lifecycle::active_turn::Timer;
use turn_lifecycle::active_turn::TurnContext;
use turn_lifecycle::turn_state::TurnTypes;

struct TestTypes;

impl TurnTypes for TestTypes {
    type ReviewDecision = ();
    type RequestPermissionsResponse = ();
    type RequestPermissionProfile = ();
    type AbsolutePath = ();
    type RequestUserInputResponse = ();
    type ElicitationResponse = ();
    type DynamicToolResponse = ();
    type TurnInputQueue = ();
    type AdditionalPermissionProfile = ();
    type TokenUsage = ();
}

/// A task that answers what it is told to.
struct Answering(Arc<AtomicBool>);

impl AnySessionTask for Answering {
    fn records_turn_token_usage_on_span(&self) -> bool {
        self.0.load(Ordering::SeqCst)
    }
}

struct NoData;

impl ExtensionData for NoData {}

/// Tells when it is dropped.
struct Dropped(Arc<AtomicBool>);

impl Timer for Dropped {}

impl Drop for Dropped {
    fn drop(&mut self) {
        self.0.store(true, Ordering::SeqCst);
    }
}

fn runtime() -> tokio::runtime::Runtime {
    tokio::runtime::Builder::new_current_thread()
        .build()
        .expect("a runtime")
}

fn context(sub_id: &str) -> Arc<TurnContext> {
    Arc::new(TurnContext {
        sub_id: sub_id.to_string(),
    })
}

/// A task that waits for a message and passes it on.
fn task(
    runtime: &tokio::runtime::Runtime,
    sub_id: &str,
    kind: TaskKind,
) -> (RunningTask, oneshot::Sender<u8>, oneshot::Receiver<u8>) {
    let (go, wait) = oneshot::channel::<u8>();
    let (done, result) = oneshot::channel::<u8>();
    let handle = runtime.spawn(async move {
        if let Ok(message) = wait.await {
            let _ = done.send(message);
        }
    });
    let task = RunningTask {
        done: Arc::new(Notify::new()),
        kind,
        task: Arc::new(Answering(Arc::new(AtomicBool::new(kind == TaskKind::Review)))),
        cancellation_token: CancellationToken::new(),
        handle: AbortOnDropHandle::new(handle),
        turn_context: context(sub_id),
        turn_extension_data: Arc::new(NoData),
        _timer: None,
    };
    (task, go, result)
}

fn new_turn() -> ActiveTurn<TestTypes> {
    ActiveTurn::default()
}

#[test]
fn a_turn_starts_without_tasks() {
    let mut turn = new_turn();
    assert!(turn.tasks.is_empty());
    assert!(turn.pending_turn_context.is_none());
    assert!(turn.drain_tasks().is_empty());
    assert!(turn.remove_task("a").is_none());
    let state = turn.turn_state.try_lock().expect("nobody holds it");
    assert!(state.accepts_mailbox_delivery_for_current_turn());
    assert!(state.current_plan().is_none());
}

#[test]
fn a_removed_task_goes_on() {
    let runtime = runtime();
    let mut turn = new_turn();
    let (first, go, result) = task(&runtime, "a", TaskKind::Review);
    let (second, _go, _result) = task(&runtime, "b", TaskKind::Compact);
    turn.add_task(first);
    turn.add_task(second);
    let removed = turn.remove_task("a").expect("it is there");
    assert_eq!(removed.kind, TaskKind::Review);
    assert!(removed.records_turn_token_usage_on_span);
    assert!(!removed.active_turn_is_empty);
    go.send(42).expect("the task still waits");
    assert_eq!(runtime.block_on(result), Ok(42));
    assert!(turn.remove_task("a").is_none());
    let removed = turn.remove_task("b").expect("it is there");
    assert_eq!(removed.kind, TaskKind::Compact);
    assert!(!removed.records_turn_token_usage_on_span);
    assert!(removed.active_turn_is_empty);
}

#[test]
fn a_task_that_is_replaced_is_aborted() {
    let runtime = runtime();
    let mut turn = new_turn();
    let (first, _go, result) = task(&runtime, "a", TaskKind::Regular);
    let (second, _second_go, _second_result) = task(&runtime, "a", TaskKind::Review);
    turn.add_task(first);
    turn.add_task(second);
    assert!(runtime.block_on(result).is_err());
    assert_eq!(turn.tasks.len(), 1);
    let tasks = turn.drain_tasks();
    assert_eq!(tasks[0].kind, TaskKind::Review);
}

#[test]
fn tasks_are_drained_in_order() {
    let runtime = runtime();
    let mut turn = new_turn();
    for sub_id in ["a", "b", "c", "d"] {
        turn.add_task(task(&runtime, sub_id, TaskKind::Regular).0);
    }
    turn.add_task(task(&runtime, "c", TaskKind::Compact).0);
    turn.remove_task("b").expect("it is there");
    let drained: Vec<(String, TaskKind)> = turn
        .drain_tasks()
        .iter()
        .map(|task| (task.turn_context.sub_id.clone(), task.kind))
        .collect();
    assert_eq!(
        drained,
        vec![
            ("a".to_string(), TaskKind::Regular),
            ("d".to_string(), TaskKind::Regular),
            ("c".to_string(), TaskKind::Compact),
        ]
    );
    assert!(turn.tasks.is_empty());
    assert!(turn.drain_tasks().is_empty());
}

#[test]
fn removing_an_added_task_restores_the_order() {
    let runtime = runtime();
    let mut turn = new_turn();
    for sub_id in ["a", "b", "c"] {
        turn.add_task(task(&runtime, sub_id, TaskKind::Regular).0);
    }
    assert!(turn.remove_task("c").is_some());
    let keys: Vec<&str> = turn.tasks.keys().map(|key| key.as_str()).collect();
    assert_eq!(keys, vec!["a", "b"]);
}

#[test]
fn a_pending_context_is_settled_by_its_own_task_only() {
    let runtime = runtime();
    let mut turn = new_turn();
    turn.pending_turn_context = Some(context("a"));
    turn.add_task(task(&runtime, "b", TaskKind::Regular).0);
    assert_eq!(
        turn.pending_turn_context.as_ref().expect("pending").sub_id,
        "a"
    );
    turn.add_task(task(&runtime, "a", TaskKind::Regular).0);
    assert!(turn.pending_turn_context.is_none());
    assert_eq!(turn.tasks.len(), 2);
}

#[test]
fn a_task_is_asked_about_its_span_as_it_is_removed() {
    let runtime = runtime();
    let mut turn = new_turn();
    let answer = Arc::new(AtomicBool::new(false));
    let (mut changing, _go, _result) = task(&runtime, "a", TaskKind::Regular);
    changing.task = Arc::new(Answering(answer.clone()));
    turn.add_task(changing);
    answer.store(true, Ordering::SeqCst);
    let removed = turn.remove_task("a").expect("it is there");
    assert!(removed.records_turn_token_usage_on_span);
}

#[test]
fn the_timer_is_dropped_with_the_task() {
    let runtime = runtime();
    let mut turn = new_turn();
    let dropped = Arc::new(AtomicBool::new(false));
    let (mut timed, _go, _result) = task(&runtime, "a", TaskKind::Regular);
    timed._timer = Some(Box::new(Dropped(dropped.clone())));
    turn.add_task(timed);
    assert!(!dropped.load(Ordering::SeqCst));
    turn.remove_task("a").expect("it is there");
    assert!(dropped.load(Ordering::SeqCst));
}

#[test]
fn a_dismissed_task_goes_on_and_is_reported_as_it_answered() {
    let runtime = runtime();
    let (dismissed, go, result) = task(&runtime, "a", TaskKind::Compact);
    let removed = dismiss_task(dismissed, true, false);
    assert_eq!(removed.kind, TaskKind::Compact);
    assert!(removed.records_turn_token_usage_on_span);
    assert!(!removed.active_turn_is_empty);
    go.send(7).expect("the task still waits");
    assert_eq!(runtime.block_on(result), Ok(7));
}
