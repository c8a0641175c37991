//! The hooks that follow the tasks of a turn.

use crate::hooks::common::can_select;
use crate::hooks::common::collect_reports;
use crate::hooks::common::dispatch_event;
use crate::hooks::common::preview_event;
use crate::hooks::common::reports_of;
use crate::hooks::common::selects;
use crate::hooks::common::summarizes;
use crate::hooks::common::HookCompletedEvent;
use crate::hooks::common::HookEventName;
use crate::hooks::common::ParsedHandler;
use crate::hooks::common::RunDispatch;
use crate::hooks::common::RunStart;
use crate::hooks::common::WorkingDirectory;
use vstd::prelude::*;
use vstd::string::*;

verus! {

/// A point in the life of a task that hooks may follow; `P` is a path that commands can be run in.
/// The path of the transcript is given as it is displayed.
#[derive(Debug, Clone)]
pub struct TaskLifecycleRequest<P> {
    pub session_id: String,
    pub turn_id: String,
    pub cwd: WorkingDirectory<P>,
    pub transcript_path: Option<String>,
    pub model: String,
    pub permission_mode: String,
    pub event_name: HookEventName,
    pub task_kind: String,
    pub last_agent_message: Option<String>,
    pub completed_at: Option<i64>,
    pub duration_ms: Option<i64>,
    pub time_to_first_token_ms: Option<i64>,
}

/// What the hooks for a task came to; `S` is a summary of the run of a hook.
#[derive(Debug)]
pub struct TaskLifecycleOutcome<S> {
    pub hook_events: Vec<HookCompletedEvent<S>>,
}

/// What a hook is told of a task.
#[derive(Debug)]
pub struct TaskLifecycleCommandInput {
    pub session_id: String,
    pub turn_id: String,
    pub transcript_path: Option<String>,
    pub cwd: String,
    pub hook_event_name: String,
    pub model: String,
    pub permission_mode: String,
    pub task_kind: String,
    pub last_agent_message: Option<String>,
    pub completed_at: Option<i64>,
    pub duration_ms: Option<i64>,
    pub time_to_first_token_ms: Option<i64>,
}

/// What an event is called in the input of a hook.
pub open spec fn label_of(event_name: HookEventName) -> Seq<char> {
    match event_name {
        HookEventName::TaskCreated => "TaskCreated"@,
        HookEventName::TaskCompleted => "TaskCompleted"@,
        _ => "TaskLifecycle"@,
    }
}

impl TaskLifecycleCommandInput {
    /// Whether this is what hooks are told of `request`.
    pub open spec fn tells_of<P>(self, request: TaskLifecycleRequest<P>) -> bool {
        &&& self.session_id == request.session_id
        &&& self.turn_id == request.turn_id
        &&& self.transcript_path == request.transcript_path
        &&& self.cwd == request.cwd.displayed
        &&& self.hook_event_name@ == label_of(request.event_name)
        &&& self.model == request.model
        &&& self.permission_mode == request.permission_mode
        &&& self.task_kind == request.task_kind
        &&& self.last_agent_message == request.last_agent_message
        &&& self.completed_at == request.completed_at
        &&& self.duration_ms == request.duration_ms
        &&& self.time_to_first_token_ms == request.time_to_first_token_ms
    }
}

/// What an event is called in the input of a hook.
pub fn event_label(event_name: HookEventName) -> (r: &'static str)
    ensures
        r@ == label_of(event_name),
        r@ == match event_name {
            HookEventName::TaskCreated => "TaskCreated"@,
            HookEventName::TaskCompleted => "TaskCompleted"@,
            _ => "TaskLifecycle"@,
        },
{
    match event_name {
        HookEventName::TaskCreated => "TaskCreated",
        HookEventName::TaskCompleted => "TaskCompleted",
        _ => "TaskLifecycle",
    }
}

/// What hooks are told of `request`.
pub fn command_input<P>(request: &TaskLifecycleRequest<P>) -> (r: TaskLifecycleCommandInput)
    ensures
        r.tells_of(*request),
        r.session_id == request.session_id,
        r.turn_id == request.turn_id,
        r.transcript_path == request.transcript_path,
        r.model == request.model,
        r.permission_mode == request.permission_mode,
        r.task_kind == request.task_kind,
        r.last_agent_message == request.last_agent_message,
        r.completed_at == request.completed_at,
        r.duration_ms == request.duration_ms,
        r.time_to_first_token_ms == request.time_to_first_token_ms,
        r.cwd == request.cwd.displayed,
        r.hook_event_name@ == match request.event_name {
            HookEventName::TaskCreated => "TaskCreated"@,
            HookEventName::TaskCompleted => "TaskCompleted"@,
            _ => "TaskLifecycle"@,
        },
{
    TaskLifecycleCommandInput {
        session_id: request.session_id.clone(),
        turn_id: request.turn_id.clone(),
        transcript_path: request.transcript_path.clone(),
        cwd: request.cwd.displayed.clone(),
        hook_event_name: event_label(request.event_name).to_owned(),
        model: request.model.clone(),
        permission_mode: request.permission_mode.clone(),
        task_kind: request.task_kind.clone(),
        last_agent_message: request.last_agent_message.clone(),
        completed_at: request.completed_at,
        duration_ms: request.duration_ms,
        time_to_first_token_ms: request.time_to_first_token_ms,
    }
}

/// The summaries of the handlers that `request` would run. `select_handlers` is asked for those
/// that match the kind of the task.
pub fn preview<
    H,
    P,
    S,
    F: FnOnce(&[H], HookEventName, Option<&str>) -> Vec<H>,
    G: Fn(&H) -> S,
>(
    handlers: &[H],
    request: &TaskLifecycleRequest<P>,
    select_handlers: F,
    running_summary: G,
) -> (r: Vec<S>)
    requires
        can_select(select_handlers, handlers, request.event_name, request.task_kind@),
        forall|matched: Vec<H>, i: int|
            selects(
                select_handlers,
                handlers,
                request.event_name,
                request.task_kind@,
                matched,
            ) && 0 <= i < matched@.len() ==> #[trigger] call_requires(
                running_summary,
                (&matched@[i],),
            ),
    ensures
        exists|matched: Vec<H>|
            (#[trigger] selects(
                select_handlers,
                handlers,
                request.event_name,
                request.task_kind@,
                matched,
            )) && summarizes(running_summary, matched@, r@),
        exists|matched: Vec<H>, input: &str|
            {
                &&& input@ == request.task_kind@
                &&& #[trigger] call_ensures(
                    select_handlers,
                    (handlers, request.event_name, Some(input)),
                    matched,
                )
                &&& r@.len() == matched@.len()
                &&& forall|i: int|
                    0 <= i < matched@.len() ==> call_ensures(
                        running_summary,
                        (&matched@[i],),
                        #[trigger] r@[i],
                    )
            },
{
    preview_event(
        handlers,
        request.event_name,
        request.task_kind.as_str(),
        select_handlers,
        running_summary,
    )
}

/// Begins the run of the hooks for `request`. Their input is made only if there are any:
/// `select_handlers` is asked for those that match the kind of the task.
pub fn start<H, P, S, F: FnOnce(&[H], HookEventName, Option<&str>) -> Vec<H>>(
    handlers: &[H],
    request: &TaskLifecycleRequest<P>,
    select_handlers: F,
) -> (r: RunStart<H, TaskLifecycleCommandInput, TaskLifecycleOutcome<S>>)
    requires
        can_select(select_handlers, handlers, request.event_name, request.task_kind@),
    ensures
        exists|matched: Vec<H>|
            (#[trigger] selects(
                select_handlers,
                handlers,
                request.event_name,
                request.task_kind@,
                matched,
            )) && match r {
                RunStart::Finished { outcome } => matched@.len() == 0 && outcome.hook_events@.len()
                    == 0,
                RunStart::Serialize { matched: to_run, input } => matched@.len() > 0 && to_run
                    == matched && input.tells_of(*request),
            },
        exists|matched: Vec<H>, text: &str|
            {
                &&& text@ == request.task_kind@
                &&& #[trigger] call_ensures(
                    select_handlers,
                    (handlers, request.event_name, Some(text)),
                    matched,
                )
                &&& match r {
                    RunStart::Finished { outcome } => matched@.len() == 0
                        && outcome.hook_events@.len() == 0,
                    RunStart::Serialize { matched: to_run, input } => matched@.len() > 0 && to_run
                        == matched && input.tells_of(*request),
                }
            },
{
    let matched = select_handlers(
        handlers,
        request.event_name,
        Some(request.task_kind.as_str()),
    );
    assert(selects(
        select_handlers,
        handlers,
        request.event_name,
        request.task_kind@,
        matched,
    ));
    if matched.is_empty() {
        RunStart::Finished { outcome: TaskLifecycleOutcome { hook_events: Vec::new() } }
    } else {
        RunStart::Serialize { matched, input: command_input(request) }
    }
}

/// Goes on with the run of the hooks for `request`, once their input is serialised or the
/// serialisation has failed with an error.
pub fn dispatch<H, P>(
    matched: Vec<H>,
    request: TaskLifecycleRequest<P>,
    input_json: Result<String, String>,
) -> (r: RunDispatch<H, P>)
    ensures
        match input_json {
            Ok(input_json) => r == (RunDispatch::Execute {
                handlers: matched,
                input_json,
                cwd: request.cwd.path,
                turn_id: Some(request.turn_id),
            }),
            Err(error) => r matches RunDispatch::ReportFailure { handlers, turn_id, message }
                && handlers == matched && turn_id == Some(request.turn_id) && message@
                == "failed to serialize task lifecycle hook input: "@ + error@,
        },
{
    dispatch_event(
        matched,
        request.turn_id,
        request.cwd.path,
        input_json,
        "failed to serialize task lifecycle hook input: ",
    )
}

/// Ends the run of the hooks for a request with one report for each handler that has run, in
/// the same order.
pub fn finish<S>(results: Vec<ParsedHandler<(), S>>) -> (r: TaskLifecycleOutcome<S>)
    ensures
        r.hook_events@ == reports_of(results@),
        r.hook_events@.len() == results@.len(),
        forall|i: int|
            0 <= i < results@.len() ==> #[trigger] r.hook_events@[i] == results@[i].completed,
{
    TaskLifecycleOutcome { hook_events: collect_reports(results) }
}

/// Law: what hooks are told of a request is what the request says, part by part.
pub proof fn hooks_are_told_what_the_request_says<P>(
    input: TaskLifecycleCommandInput,
    request: TaskLifecycleRequest<P>,
)
    requires
        input.tells_of(request),
    ensures
        input.session_id == request.session_id,
        input.turn_id == request.turn_id,
        input.transcript_path == request.transcript_path,
        input.model == request.model,
        input.permission_mode == request.permission_mode,
        input.task_kind == request.task_kind,
        input.last_agent_message == request.last_agent_message,
        input.completed_at == request.completed_at,
        input.duration_ms == request.duration_ms,
        input.time_to_first_token_ms == request.time_to_first_token_ms,
        input.cwd == request.cwd.displayed,
        input.hook_event_name@ == match request.event_name {
            HookEventName::TaskCreated => "TaskCreated"@,
            HookEventName::TaskCompleted => "TaskCompleted"@,
            _ => "TaskLifecycle"@,
        },
{
}

} // verus!
