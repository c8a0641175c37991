use turn_lifecycle::hooks::common::parse_completed;
use turn_lifecycle::hooks::common::CommandRunResult;
use turn_lifecycle::hooks::common::HookCompletedEvent;
use turn_lifecycle::hooks::common::HookEventName;
use turn_lifecycle::hooks::common::HookOutputEntry;
use turn_lifecycle::hooks::common::HookOutputEntryKind;
use turn_lifecycle::hooks::common::HookRunStatus;
use turn_lifecycle::hooks::common::ParsedHandler;
use turn_lifecycle::hooks::common::RunDispatch;
use turn_lifecycle::hooks::common::RunStart;
use turn_lifecycle::hooks::common::WorkingDirectory;
use turn_lifecycle::hooks::plan_lifecycle;
use turn_lifecycle::hooks::task_lifecycle;
use turn_lifecycle::plan::PlanItemArg;
use turn_lifecycle::plan::StepStatus;
use turn_lifecycle::text::decimal_text;
use turn_lifecycle::text::signed_decimal_text;
use turn_lifecycle::text::trimmed_non_empty;

fn item(step: &str, status: StepStatus) -> PlanItemArg {
    PlanItemArg {
        step: step.to_string(),
        status,
    }
}

/// A directory whose name is not valid UTF-8, so that its displayed text does not lead back to it.
fn directory() -> WorkingDirectory<Vec<u8>> {
    WorkingDirectory {
        path: b"/wor\xff".to_vec(),
        displayed: "/wor\u{fffd}".to_string(),
    }
}

fn plan_request() -> plan_lifecycle::PlanLifecycleRequest<Vec<u8>> {
    plan_lifecycle::PlanLifecycleRequest {
        session_id: "session".to_string(),
        turn_id: "turn".to_string(),
        cwd: directory(),
        transcript_path: None,
        model: "mock-model".to_string(),
        permission_mode: "default".to_string(),
        event_name: HookEventName::PlanUpdated,
        plan_source: "external".to_string(),
        explanation: Some("external harness update".to_string()),
        plan: vec![item("Run external validation", StepStatus::Pending)],
        previous_plan: None,
        plan_text: None,
    }
}

fn task_request() -> task_lifecycle::TaskLifecycleRequest<Vec<u8>> {
    task_lifecycle::TaskLifecycleRequest {
        session_id: "session".to_string(),
        turn_id: "turn".to_string(),
        cwd: directory(),
        transcript_path: Some("/log".to_string()),
        model: "mock-model".to_string(),
        permission_mode: "default".to_string(),
        event_name: HookEventName::TaskCompleted,
        task_kind: "regular".to_string(),
        last_agent_message: Some("bye".to_string()),
        completed_at: Some(10),
        duration_ms: Some(-1),
        time_to_first_token_ms: None,
    }
}

fn run_result(error: Option<&str>, exit_code: Option<i32>, stderr: &str) -> CommandRunResult<u64> {
    CommandRunResult {
        error: error.map(|error| error.to_string()),
        exit_code,
        stderr: stderr.to_string(),
        details: 25,
    }
}

fn failed(text: &str) -> (HookRunStatus, Vec<HookOutputEntry>) {
    (
        HookRunStatus::Failed,
        vec![HookOutputEntry {
            kind: HookOutputEntryKind::Error,
            text: text.to_string(),
        }],
    )
}

#[test]
fn only_a_clean_exit_counts_as_completed() {
    assert_eq!(
        run_result(None, Some(0), "noise").judge(),
        (HookRunStatus::Completed, vec![])
    );
    assert_eq!(
        run_result(Some("spawn failed"), Some(0), "noise").judge(),
        failed("spawn failed")
    );
    assert_eq!(
        run_result(None, Some(2), " \n bad input\t\n").judge(),
        failed("bad input")
    );
    assert_eq!(
        run_result(None, Some(-17), " \n\t ").judge(),
        failed("hook exited with code -17")
    );
    assert_eq!(
        run_result(None, None, "noise").judge(),
        failed("hook process terminated without an exit code")
    );
}

#[test]
fn a_report_holds_the_summary_of_the_run() {
    let parsed = parse_completed(
        &"handler",
        run_result(None, Some(3), ""),
        Some("turn".to_string()),
        |handler: &&str,
         result: &CommandRunResult<u64>,
         status: HookRunStatus,
         entries: Vec<HookOutputEntry>| {
            (handler.to_string(), result.details, status, entries)
        },
    );
    assert_eq!(parsed.completed.turn_id.as_deref(), Some("turn"));
    assert_eq!(parsed.completion_order, 0);
    let (status, entries) = failed("hook exited with code 3");
    assert_eq!(
        parsed.completed.run,
        ("handler".to_string(), 25, status, entries)
    );
}

#[test]
fn plan_events_have_their_labels() {
    let labels: Vec<&str> = [
        HookEventName::PlanCreated,
        HookEventName::PlanUpdated,
        HookEventName::PlanCompleted,
        HookEventName::TaskCreated,
        HookEventName::Other(4),
    ]
    .iter()
    .map(|event| plan_lifecycle::event_label(*event))
    .collect();
    assert_eq!(
        labels,
        vec![
            "PlanCreated",
            "PlanUpdated",
            "PlanCompleted",
            "PlanLifecycle",
            "PlanLifecycle"
        ]
    );
}

#[test]
fn task_events_have_their_labels() {
    let labels: Vec<&str> = [
        HookEventName::TaskCreated,
        HookEventName::TaskCompleted,
        HookEventName::PlanCreated,
    ]
    .iter()
    .map(|event| task_lifecycle::event_label(*event))
    .collect();
    assert_eq!(labels, vec!["TaskCreated", "TaskCompleted", "TaskLifecycle"]);
}

#[test]
fn plan_hooks_are_told_of_the_plan() {
    let input = plan_lifecycle::command_input(&plan_request());
    assert_eq!(input.hook_event_name, "PlanUpdated");
    assert_eq!(input.plan_source, "external");
    assert_eq!(input.pending_step_count, 1);
    assert_eq!(input.in_progress_step_count, 0);
    assert_eq!(input.completed_step_count, 0);
    assert_eq!(input.session_id, "session");
    assert_eq!(input.turn_id, "turn");
    assert_eq!(input.cwd, "/wor\u{fffd}");
    assert_eq!(input.transcript_path, None);
    assert_eq!(input.model, "mock-model");
    assert_eq!(input.permission_mode, "default");
    assert_eq!(input.explanation.as_deref(), Some("external harness update"));
    assert_eq!(
        input.plan,
        vec![item("Run external validation", StepStatus::Pending)]
    );
    assert_eq!(input.previous_plan, None);
    assert_eq!(input.plan_text, None);
}

#[test]
fn every_step_is_counted_once() {
    let mut request = plan_request();
    request.plan = vec![
        item("a", StepStatus::Completed),
        item("b", StepStatus::Pending),
        item("c", StepStatus::Completed),
        item("d", StepStatus::InProgress),
        item("e", StepStatus::Completed),
        item("f", StepStatus::Pending),
    ];
    request.previous_plan = Some(vec![item("a", StepStatus::InProgress)]);
    let input = plan_lifecycle::command_input(&request);
    assert_eq!(input.completed_step_count, 3);
    assert_eq!(input.in_progress_step_count, 1);
    assert_eq!(input.pending_step_count, 2);
    assert_eq!(
        input.previous_plan,
        Some(vec![item("a", StepStatus::InProgress)])
    );
}

#[test]
fn task_hooks_are_told_of_the_task() {
    let input = task_lifecycle::command_input(&task_request());
    assert_eq!(input.hook_event_name, "TaskCompleted");
    assert_eq!(input.task_kind, "regular");
    assert_eq!(input.cwd, "/wor\u{fffd}");
    assert_eq!(input.transcript_path.as_deref(), Some("/log"));
    assert_eq!(input.last_agent_message.as_deref(), Some("bye"));
    assert_eq!(input.completed_at, Some(10));
    assert_eq!(input.duration_ms, Some(-1));
    assert_eq!(input.time_to_first_token_ms, None);
}

/// Keeps the handlers whose event and matcher are those asked for.
fn select(
    handlers: &[(u8, &'static str)],
    event_name: HookEventName,
    matcher_input: Option<&str>,
) -> Vec<(u8, &'static str)> {
    assert!(matches!(
        event_name,
        HookEventName::PlanUpdated | HookEventName::TaskCompleted
    ));
    handlers
        .iter()
        .filter(|handler| Some(handler.1) == matcher_input)
        .cloned()
        .collect()
}

const HANDLERS: [(u8, &str); 4] = [
    (1, "external"),
    (2, "regular"),
    (3, "external"),
    (4, "model"),
];

#[test]
fn a_preview_names_the_matching_handlers_in_order() {
    let summary = |handler: &(u8, &'static str)| handler.0 * 10;
    assert_eq!(
        plan_lifecycle::preview(&HANDLERS, &plan_request(), select, summary),
        vec![10, 30]
    );
    assert_eq!(
        task_lifecycle::preview(&HANDLERS, &task_request(), select, summary),
        vec![20]
    );
}

#[test]
fn without_handlers_there_is_nothing_to_run() {
    let started: RunStart<_, _, plan_lifecycle::PlanLifecycleOutcome<()>> =
        plan_lifecycle::start(&HANDLERS[1..2], &plan_request(), select);
    assert!(matches!(
        started,
        RunStart::Finished { outcome } if outcome.hook_events.is_empty()
    ));
    let started: RunStart<_, _, task_lifecycle::TaskLifecycleOutcome<()>> =
        task_lifecycle::start(&HANDLERS[2..], &task_request(), select);
    assert!(matches!(
        started,
        RunStart::Finished { outcome } if outcome.hook_events.is_empty()
    ));
}

#[test]
fn matching_handlers_are_run_with_the_serialised_input() {
    let started: RunStart<_, _, plan_lifecycle::PlanLifecycleOutcome<()>> =
        plan_lifecycle::start(&HANDLERS, &plan_request(), select);
    let (matched, input) = match started {
        RunStart::Serialize { matched, input } => (matched, input),
        RunStart::Finished { .. } => panic!("there are handlers"),
    };
    assert_eq!(matched, vec![(1, "external"), (3, "external")]);
    assert_eq!(input.pending_step_count, 1);
    match plan_lifecycle::dispatch(matched, plan_request(), Ok("{}".to_string())) {
        RunDispatch::Execute {
            handlers,
            input_json,
            cwd,
            turn_id,
        } => {
            assert_eq!(handlers.len(), 2);
            assert_eq!(input_json, "{}");
            assert_eq!(cwd, b"/wor\xff".to_vec());
            assert_eq!(turn_id.as_deref(), Some("turn"));
        }
        RunDispatch::ReportFailure { .. } => panic!("the input was serialised"),
    }
}

#[test]
fn a_failed_serialisation_is_reported() {
    match plan_lifecycle::dispatch(vec![1], plan_request(), Err("key must be a string".to_string()))
    {
        RunDispatch::ReportFailure {
            handlers,
            turn_id,
            message,
        } => {
            assert_eq!(handlers, vec![1]);
            assert_eq!(turn_id.as_deref(), Some("turn"));
            assert_eq!(
                message,
                "failed to serialize plan lifecycle hook input: key must be a string"
            );
        }
        RunDispatch::Execute { .. } => panic!("there is no input"),
    }
    match task_lifecycle::dispatch(vec![1], task_request(), Err("bad".to_string())) {
        RunDispatch::ReportFailure { message, .. } => assert_eq!(
            message,
            "failed to serialize task lifecycle hook input: bad"
        ),
        RunDispatch::Execute { .. } => panic!("there is no input"),
    }
}

#[test]
fn task_hooks_are_run_in_the_directory_itself() {
    match task_lifecycle::dispatch(vec![1], task_request(), Ok("{}".to_string())) {
        RunDispatch::Execute { cwd, turn_id, .. } => {
            assert_eq!(cwd, b"/wor\xff".to_vec());
            assert_eq!(turn_id.as_deref(), Some("turn"));
        }
        RunDispatch::ReportFailure { .. } => panic!("the input was serialised"),
    }
}

fn parsed(number: u8) -> ParsedHandler<(), u8> {
    ParsedHandler {
        completed: HookCompletedEvent {
            turn_id: None,
            run: number,
        },
        data: (),
        completion_order: 0,
    }
}

#[test]
fn the_outcome_holds_one_report_for_each_handler() {
    let runs: Vec<u8> = plan_lifecycle::finish(vec![parsed(3), parsed(1), parsed(2)])
        .hook_events
        .iter()
        .map(|event| event.run)
        .collect();
    assert_eq!(runs, vec![3, 1, 2]);
    let runs: Vec<u8> = task_lifecycle::finish(vec![parsed(9)])
        .hook_events
        .iter()
        .map(|event| event.run)
        .collect();
    assert_eq!(runs, vec![9]);
}

#[test]
fn numerals_are_decimal() {
    assert_eq!(decimal_text(0), "0");
    assert_eq!(decimal_text(9), "9");
    assert_eq!(decimal_text(10), "10");
    assert_eq!(decimal_text(u64::MAX), "18446744073709551615");
    assert_eq!(signed_decimal_text(-1), "-1");
    assert_eq!(signed_decimal_text(i32::MIN), "-2147483648");
    assert_eq!(signed_decimal_text(i32::MAX), "2147483647");
}

#[test]
fn white_space_is_trimmed_as_std_does() {
    for text in [
        "",
        " ",
        "a",
        " a b ",
        "\u{3000}x\u{2003}",
        "\u{85}\u{a0}y",
        "\u{200b}z\u{200b}",
        "\r\n\t",
        "\u{1680}\u{2028}\u{2029}\u{202f}\u{205f}",
    ] {
        let kept = text.trim();
        let expected = if kept.is_empty() {
            None
        } else {
            Some(kept.to_string())
        };
        assert_eq!(trimmed_non_empty(text), expected);
    }
}
