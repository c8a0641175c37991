//! The hooks that follow the plan of a turn.

use crate::hooks::common::can_select;
use crate::hooks::common::collect_reports;
use crate::hooks::common::dispatch_event;
use crate::hooks::common::preview_event;
use crate::hooks::common::reports_of;
use crate::hooks::common::selects;
use crate::hooks::common::summarizes;
use crate::hooks::common::HookCompletedEvent;
use crate::hooks::common::HookEventName;
use crate::hooks::common::ParsedHandler;
use crate::hooks::common::RunDispatch;
use crate::hooks::common::RunStart;
use crate::hooks::common::WorkingDirectory;
use crate::plan::items_of;
use crate::plan::PlanItem;
use crate::plan::PlanItemArg;
use crate::plan::StepStatus;
use vstd::prelude::*;
use vstd::string::*;

verus! {

/// A change of a plan that hooks may follow; `P` is a path that commands can be run in.
/// The path of the transcript is given as it is displayed.
#[derive(Debug, Clone)]
pub struct PlanLifecycleRequest<P> {
    pub session_id: String,
    pub turn_id: String,
    pub cwd: WorkingDirectory<P>,
    pub transcript_path: Option<String>,
    pub model: String,
    pub permission_mode: String,
    pub event_name: HookEventName,
    pub plan_source: String,
    pub explanation: Option<String>,
    pub plan: Vec<PlanItemArg>,
    pub previous_plan: Option<Vec<PlanItemArg>>,
    pub plan_text: Option<String>,
}

/// What the hooks for a change of a plan came to; `S` is a summary of the run of a hook.
#[derive(Debug)]
pub struct PlanLifecycleOutcome<S> {
    pub hook_events: Vec<HookCompletedEvent<S>>,
}

/// What a hook is told of a change of a plan.
#[derive(Debug)]
pub struct PlanLifecycleCommandInput {
    pub session_id: String,
    pub turn_id: String,
    pub transcript_path: Option<String>,
    pub cwd: String,
    pub hook_event_name: String,
    pub model: String,
    pub permission_mode: String,
    pub plan_source: String,
    pub explanation: Option<String>,
    pub plan: Vec<PlanItemArg>,
    pub previous_plan: Option<Vec<PlanItemArg>>,
    pub completed_step_count: usize,
    pub in_progress_step_count: usize,
    pub pending_step_count: usize,
    pub plan_text: Option<String>,
}

/// What an event is called in the input of a hook.
pub open spec fn label_of(event_name: HookEventName) -> Seq<char> {
    match event_name {
        HookEventName::PlanCreated => "PlanCreated"@,
        HookEventName::PlanUpdated => "PlanUpdated"@,
        HookEventName::PlanCompleted => "PlanCompleted"@,
        _ => "PlanLifecycle"@,
    }
}

/// How many of the steps have `status`.
pub open spec fn step_count(items: Seq<PlanItem>, status: StepStatus) -> nat
    decreases items.len(),
{
    if items.len() == 0 {
        0
    } else {
        step_count(items.drop_last(), status) + if items.last().status == status {
            1nat
        } else {
            0nat
        }
    }
}

/// Whether two optional lists hold the same steps.
pub open spec fn same_optional_items(
    a: Option<Vec<PlanItemArg>>,
    b: Option<Vec<PlanItemArg>>,
) -> bool {
    match (a, b) {
        (Some(a), Some(b)) => a@ == b@,
        (None, None) => true,
        _ => false,
    }
}

impl PlanLifecycleCommandInput {
    /// Whether this is what hooks are told of `request`.
    pub open spec fn tells_of<P>(self, request: PlanLifecycleRequest<P>) -> bool {
        &&& self.session_id == request.session_id
        &&& self.turn_id == request.turn_id
        &&& self.transcript_path == request.transcript_path
        &&& self.cwd == request.cwd.displayed
        &&& self.hook_event_name@ == label_of(request.event_name)
        &&& self.model == request.model
        &&& self.permission_mode == request.permission_mode
        &&& self.plan_source == request.plan_source
        &&& self.explanation == request.explanation
        &&& self.plan@ == request.plan@
        &&& same_optional_items(self.previous_plan, request.previous_plan)
        &&& self.completed_step_count == step_count(
            items_of(request.plan@),
            StepStatus::Completed,
        )
        &&& self.in_progress_step_count == step_count(
            items_of(request.plan@),
            StepStatus::InProgress,
        )
        &&& self.pending_step_count == step_count(items_of(request.plan@), StepStatus::Pending)
        &&& self.plan_text == request.plan_text
    }
}

/// What an event is called in the input of a hook.
pub fn event_label(event_name: HookEventName) -> (r: &'static str)
    ensures
        r@ == label_of(event_name),
        r@ == match event_name {
            HookEventName::PlanCreated => "PlanCreated"@,
            HookEventName::PlanUpdated => "PlanUpdated"@,
            HookEventName::PlanCompleted => "PlanCompleted"@,
            _ => "PlanLifecycle"@,
        },
{
    match event_name {
        HookEventName::PlanCreated => "PlanCreated",
        HookEventName::PlanUpdated => "PlanUpdated",
        HookEventName::PlanCompleted => "PlanCompleted",
        _ => "PlanLifecycle",
    }
}

/// Counts the steps that have `status`.
pub fn count_steps(plan: &[PlanItemArg], status: StepStatus) -> (r: usize)
    ensures
        r == step_count(items_of(plan@), status),
        r == plan@.filter(|item: PlanItemArg| item.status == status).len(),
{
    proof {
        steps_are_counted_by_their_status(plan@, status);
    }
    let mut count: usize = 0;
    let mut i: usize = 0;
    assert(items_of(plan@).take(0) =~= Seq::empty());
    while i < plan.len()
        invariant
            i <= plan@.len(),
            count <= i,
            count == step_count(items_of(plan@).take(i as int), status),
        decreases plan@.len() - i,
    {
        assert(items_of(plan@).take(i + 1).drop_last() =~= items_of(plan@).take(i as int));
        if plan[i].status == status {
            count = count + 1;
        }
        i = i + 1;
    }
    assert(items_of(plan@).take(i as int) =~= items_of(plan@));
    count
}

/// What hooks are told of `request`.
pub fn command_input<P>(request: &PlanLifecycleRequest<P>) -> (r: PlanLifecycleCommandInput)
    ensures
        r.tells_of(*request),
        r.session_id == request.session_id,
        r.turn_id == request.turn_id,
        r.transcript_path == request.transcript_path,
        r.model == request.model,
        r.permission_mode == request.permission_mode,
        r.plan_source == request.plan_source,
        r.explanation == request.explanation,
        r.plan_text == request.plan_text,
        r.cwd == request.cwd.displayed,
        r.hook_event_name@ == match request.event_name {
            HookEventName::PlanCreated => "PlanCreated"@,
            HookEventName::PlanUpdated => "PlanUpdated"@,
            HookEventName::PlanCompleted => "PlanCompleted"@,
            _ => "PlanLifecycle"@,
        },
        r.plan@ == request.plan@,
        match (request.previous_plan, r.previous_plan) {
            (Some(items), Some(told)) => told@ == items@,
            (None, None) => true,
            _ => false,
        },
        r.completed_step_count == request.plan@.filter(
            |item: PlanItemArg| item.status == StepStatus::Completed,
        ).len(),
        r.in_progress_step_count == request.plan@.filter(
            |item: PlanItemArg| item.status == StepStatus::InProgress,
        ).len(),
        r.pending_step_count == request.plan@.filter(
            |item: PlanItemArg| item.status == StepStatus::Pending,
        ).len(),
{
    proof {
        told_counts(request.plan@);
    }
    let plan = request.plan.clone();
    assert(plan@ =~= request.plan@);
    let previous_plan = match &request.previous_plan {
        Some(items) => {
            let copy = items.clone();
            assert(copy@ =~= items@);
            Some(copy)
        },
        None => None,
    };
    PlanLifecycleCommandInput {
        session_id: request.session_id.clone(),
        turn_id: request.turn_id.clone(),
        transcript_path: request.transcript_path.clone(),
        cwd: request.cwd.displayed.clone(),
        hook_event_name: event_label(request.event_name).to_owned(),
        model: request.model.clone(),
        permission_mode: request.permission_mode.clone(),
        plan_source: request.plan_source.clone(),
        explanation: request.explanation.clone(),
        plan,
        previous_plan,
        completed_step_count: count_steps(&request.plan, StepStatus::Completed),
        in_progress_step_count: count_steps(&request.plan, StepStatus::InProgress),
        pending_step_count: count_steps(&request.plan, StepStatus::Pending),
        plan_text: request.plan_text.clone(),
    }
}

/// The summaries of the handlers that `request` would run. `select_handlers` is asked for those
/// that match the source of the plan.
pub fn preview<
    H,
    P,
    S,
    F: FnOnce(&[H], HookEventName, Option<&str>) -> Vec<H>,
    G: Fn(&H) -> S,
>(
    handlers: &[H],
    request: &PlanLifecycleRequest<P>,
    select_handlers: F,
    running_summary: G,
) -> (r: Vec<S>)
    requires
        can_select(select_handlers, handlers, request.event_name, request.plan_source@),
        forall|matched: Vec<H>, i: int|
            selects(
                select_handlers,
                handlers,
                request.event_name,
                request.plan_source@,
                matched,
            ) && 0 <= i < matched@.len() ==> #[trigger] call_requires(
                running_summary,
                (&matched@[i],),
            ),
    ensures
        exists|matched: Vec<H>|
            (#[trigger] selects(
                select_handlers,
                handlers,
                request.event_name,
                request.plan_source@,
                matched,
            )) && summarizes(running_summary, matched@, r@),
        exists|matched: Vec<H>, input: &str|
            {
                &&& input@ == request.plan_source@
                &&& #[trigger] call_ensures(
                    select_handlers,
                    (handlers, request.event_name, Some(input)),
                    matched,
                )
                &&& r@.len() == matched@.len()
                &&& forall|i: int|
                    0 <= i < matched@.len() ==> call_ensures(
                        running_summary,
                        (&matched@[i],),
                        #[trigger] r@[i],
                    )
            },
{
    preview_event(
        handlers,
        request.event_name,
        request.plan_source.as_str(),
        select_handlers,
        running_summary,
    )
}

/// Begins the run of the hooks for `request`. Their input is made only if there are any:
/// `select_handlers` is asked for those that match the source of the plan.
pub fn start<H, P, S, F: FnOnce(&[H], HookEventName, Option<&str>) -> Vec<H>>(
    handlers: &[H],
    request: &PlanLifecycleRequest<P>,
    select_handlers: F,
) -> (r: RunStart<H, PlanLifecycleCommandInput, PlanLifecycleOutcome<S>>)
    requires
        can_select(select_handlers, handlers, request.event_name, request.plan_source@),
    ensures
        exists|matched: Vec<H>|
            (#[trigger] selects(
                select_handlers,
                handlers,
                request.event_name,
                request.plan_source@,
                matched,
            )) && match r {
                RunStart::Finished { outcome } => matched@.len() == 0 && outcome.hook_events@.len()
                    == 0,
                RunStart::Serialize { matched: to_run, input } => matched@.len() > 0 && to_run
                    == matched && input.tells_of(*request),
            },
        exists|matched: Vec<H>, text: &str|
            {
                &&& text@ == request.plan_source@
                &&& #[trigger] call_ensures(
                    select_handlers,
                    (handlers, request.event_name, Some(text)),
                    matched,
                )
                &&& match r {
                    RunStart::Finished { outcome } => matched@.len() == 0
                        && outcome.hook_events@.len() == 0,
                    RunStart::Serialize { matched: to_run, input } => matched@.len() > 0 && to_run
                        == matched && input.tells_of(*request),
                }
            },
{
    let matched = select_handlers(
        handlers,
        request.event_name,
        Some(request.plan_source.as_str()),
    );
    assert(selects(
        select_handlers,
        handlers,
        request.event_name,
        request.plan_source@,
        matched,
    ));
    if matched.is_empty() {
        RunStart::Finished { outcome: PlanLifecycleOutcome { hook_events: Vec::new() } }
    } else {
        RunStart::Serialize { matched, input: command_input(request) }
    }
}

/// Goes on with the run of the hooks for `request`, once their input is serialised or the
/// serialisation has failed with an error.
pub fn dispatch<H, P>(
    matched: Vec<H>,
    request: PlanLifecycleRequest<P>,
    input_json: Result<String, String>,
) -> (r: RunDispatch<H, P>)
    ensures
        match input_json {
            Ok(input_json) => r == (RunDispatch::Execute {
                handlers: matched,
                input_json,
                cwd: request.cwd.path,
                turn_id: Some(request.turn_id),
            }),
            Err(error) => r matches RunDispatch::ReportFailure { handlers, turn_id, message }
                && handlers == matched && turn_id == Some(request.turn_id) && message@
                == "failed to serialize plan lifecycle hook input: "@ + error@,
        },
{
    dispatch_event(
        matched,
        request.turn_id,
        request.cwd.path,
        input_json,
        "failed to serialize plan lifecycle hook input: ",
    )
}

/// Ends the run of the hooks for a request with one report for each handler that has run, in
/// the same order.
pub fn finish<S>(results: Vec<ParsedHandler<(), S>>) -> (r: PlanLifecycleOutcome<S>)
    ensures
        r.hook_events@ == reports_of(results@),
        r.hook_events@.len() == results@.len(),
        forall|i: int|
            0 <= i < results@.len() ==> #[trigger] r.hook_events@[i] == results@[i].completed,
{
    PlanLifecycleOutcome { hook_events: collect_reports(results) }
}

/// Law: every step of a plan is counted once, as completed, in progress or pending.
pub proof fn every_step_is_counted_once(items: Seq<PlanItem>)
    ensures
        step_count(items, StepStatus::Completed) + step_count(items, StepStatus::InProgress)
            + step_count(items, StepStatus::Pending) == items.len(),
    decreases items.len(),
{
    if items.len() > 0 {
        every_step_is_counted_once(items.drop_last());
    }
}

/// Law: what hooks are told of a request is what the request says, part by part.
pub proof fn hooks_are_told_what_the_request_says<P>(
    input: PlanLifecycleCommandInput,
    request: PlanLifecycleRequest<P>,
)
    requires
        input.tells_of(request),
    ensures
        input.session_id == request.session_id,
        input.turn_id == request.turn_id,
        input.transcript_path == request.transcript_path,
        input.model == request.model,
        input.permission_mode == request.permission_mode,
        input.plan_source == request.plan_source,
        input.explanation == request.explanation,
        input.plan_text == request.plan_text,
        input.cwd == request.cwd.displayed,
        input.hook_event_name@ == match request.event_name {
            HookEventName::PlanCreated => "PlanCreated"@,
            HookEventName::PlanUpdated => "PlanUpdated"@,
            HookEventName::PlanCompleted => "PlanCompleted"@,
            _ => "PlanLifecycle"@,
        },
        input.plan@ == request.plan@,
        match (request.previous_plan, input.previous_plan) {
            (Some(items), Some(told)) => told@ == items@,
            (None, None) => true,
            _ => false,
        },
        input.completed_step_count == request.plan@.filter(
            |item: PlanItemArg| item.status == StepStatus::Completed,
        ).len(),
        input.in_progress_step_count == request.plan@.filter(
            |item: PlanItemArg| item.status == StepStatus::InProgress,
        ).len(),
        input.pending_step_count == request.plan@.filter(
            |item: PlanItemArg| item.status == StepStatus::Pending,
        ).len(),
{
    told_counts(request.plan@);
}

/// Law: the steps that are counted are those with the status that is asked for, and no others.
pub proof fn steps_are_counted_by_their_status(plan: Seq<PlanItemArg>, status: StepStatus)
    ensures
        step_count(items_of(plan), status) == plan.filter(
            |item: PlanItemArg| item.status == status,
        ).len(),
        step_count(items_of(plan), status) == items_of(plan).filter(
            |item: PlanItem| item.status == status,
        ).len(),
    decreases plan.len(),
{
    reveal(Seq::filter);
    if plan.len() > 0 {
        assert(items_of(plan).drop_last() =~= items_of(plan.drop_last()));
        steps_are_counted_by_their_status(plan.drop_last(), status);
    }
}

/// The three counts of a plan are those of the steps with each status.
proof fn told_counts(plan: Seq<PlanItemArg>)
    ensures
        forall|status: StepStatus| #[trigger]
            step_count(items_of(plan), status) == plan.filter(
                |item: PlanItemArg| item.status == status,
            ).len(),
{
    assert forall|status: StepStatus| #[trigger]
        step_count(items_of(plan), status) == plan.filter(
            |item: PlanItemArg| item.status == status,
        ).len() by {
        steps_are_counted_by_their_status(plan, status);
    }
}

/// Law: a single step counts once if it has the status that is asked for and not at all
/// otherwise, and the counts of two lists of steps add up to that of both together.
pub proof fn counts_add_up(
    first: Seq<PlanItem>,
    second: Seq<PlanItem>,
    item: PlanItem,
    status: StepStatus,
)
    ensures
        step_count(Seq::empty(), status) == 0,
        item.status == status ==> step_count(seq![item], status) == 1,
        item.status != status ==> step_count(seq![item], status) == 0,
        step_count(first + second, status) == step_count(first, status) + step_count(
            second,
            status,
        ),
    decreases second.len(),
{
    reveal_with_fuel(step_count, 2);
    assert(seq![item].drop_last() =~= Seq::empty());
    if second.len() == 0 {
        assert(first + second =~= first);
    } else {
        assert((first + second).drop_last() =~= first + second.drop_last());
        counts_add_up(first, second.drop_last(), item, status);
    }
}

} // verus!
