use tokio::sync::oneshot;
use turn_lifecycle::plan::plan_is_completed;
use turn_lifecycle::plan::ExternalPlanUpdateOperation;
use turn_lifecycle::plan::PlanItemArg;
use turn_lifecycle::plan::StepStatus;
use turn_lifecycle::plan::UpdatePlanArgs;
use turn_lifecycle::turn_state::MailboxDeliveryPhase;
use turn_lifecycle::turn_state::PendingRequestPermissions;
use turn_lifecycle::turn_state::TurnState;
use turn_lifecycle::turn_state::TurnTypes;
use turn_lifecycle::waiters::RequestId;

struct TestTypes;

impl TurnTypes for TestTypes {
    type ReviewDecision = bool;
    type RequestPermissionsResponse = u8;
    type RequestPermissionProfile = u16;
    type AbsolutePath = String;
    type RequestUserInputResponse = String;
    type ElicitationResponse = i64;
    type DynamicToolResponse = char;
    type TurnInputQueue = Vec<String>;
    type AdditionalPermissionProfile = Vec<u32>;
    type TokenUsage = u64;
}

fn new_state() -> TurnState<TestTypes> {
    TurnState::default()
}

fn item(step: &str, status: StepStatus) -> PlanItemArg {
    PlanItemArg {
        step: step.to_string(),
        status,
    }
}

fn plan(items: Vec<PlanItemArg>) -> UpdatePlanArgs {
    UpdatePlanArgs {
        explanation: None,
        plan: items,
    }
}

fn append(step: &str, status: Option<StepStatus>) -> ExternalPlanUpdateOperation {
    ExternalPlanUpdateOperation::Append {
        step: step.to_string(),
        status,
    }
}

fn update(
    index: usize,
    step: Option<&str>,
    status: Option<StepStatus>,
) -> ExternalPlanUpdateOperation {
    ExternalPlanUpdateOperation::Update {
        index,
        step: step.map(|step| step.to_string()),
        status,
    }
}

#[test]
fn external_plan_update_appends_and_updates_open_items() {
    let mut state = new_state();
    let created = state
        .apply_external_plan_update(
            Some("initial".to_string()),
            vec![ExternalPlanUpdateOperation::Append {
                step: "draft patch".to_string(),
                status: None,
            }],
        )
        .expect("append should work");
    assert!(created.created);
    assert!(created.updated);
    assert!(!created.completed);
    assert_eq!(created.current_plan.plan[0].status, StepStatus::Pending);

    let updated = state
        .apply_external_plan_update(
            None,
            vec![ExternalPlanUpdateOperation::Update {
                index: 0,
                step: Some("ship patch".to_string()),
                status: Some(StepStatus::InProgress),
            }],
        )
        .expect("update should work");
    assert!(!updated.created);
    assert_eq!(
        updated.previous_plan.expect("previous plan")[0].step,
        "draft patch"
    );
    assert_eq!(updated.current_plan.plan[0].step, "ship patch");
    assert_eq!(updated.current_plan.plan[0].status, StepStatus::InProgress);
}

#[test]
fn external_plan_update_rejects_completed_items_without_mutating() {
    let mut state = new_state();
    state.apply_plan_snapshot(UpdatePlanArgs {
        explanation: None,
        plan: vec![PlanItemArg {
            step: "done".to_string(),
            status: StepStatus::Completed,
        }],
    });

    let error = state
        .apply_external_plan_update(
            None,
            vec![ExternalPlanUpdateOperation::Update {
                index: 0,
                step: Some("rewrite history".to_string()),
                status: Some(StepStatus::Pending),
            }],
        )
        .expect_err("completed item cannot be changed");
    assert_eq!(error, "plan item index 0 is already completed");
    assert_eq!(state.current_plan().expect("plan").plan[0].step, "done");
    assert_eq!(
        state.current_plan().expect("plan").plan[0].status,
        StepStatus::Completed
    );
}

#[test]
fn completed_plan_transition_fires_once() {
    let mut state = new_state();
    let first = state.apply_plan_snapshot(UpdatePlanArgs {
        explanation: None,
        plan: vec![PlanItemArg {
            step: "finish".to_string(),
            status: StepStatus::Completed,
        }],
    });
    assert!(first.completed);

    let second = state.apply_plan_snapshot(UpdatePlanArgs {
        explanation: None,
        plan: vec![PlanItemArg {
            step: "finish".to_string(),
            status: StepStatus::Completed,
        }],
    });
    assert!(!second.completed);
}

#[test]
fn a_plan_reopened_and_finished_again_is_not_reported_again() {
    let mut state = new_state();
    assert!(
        state
            .apply_plan_snapshot(plan(vec![item("a", StepStatus::Completed)]))
            .completed
    );
    assert!(
        !state
            .apply_plan_snapshot(plan(vec![item("a", StepStatus::Pending)]))
            .completed
    );
    let edited = state
        .apply_external_plan_update(None, vec![update(0, None, Some(StepStatus::Completed))])
        .expect("the step is open");
    assert!(!edited.completed);
    assert_eq!(edited.current_plan.plan, vec![item("a", StepStatus::Completed)]);
}

#[test]
fn completion_by_an_edit_is_reported() {
    let mut state = new_state();
    state.apply_plan_snapshot(plan(vec![
        item("a", StepStatus::Completed),
        item("b", StepStatus::InProgress),
    ]));
    let edited = state
        .apply_external_plan_update(None, vec![update(1, None, Some(StepStatus::Completed))])
        .expect("the step is open");
    assert!(edited.completed);
    assert!(edited.updated);
    assert!(!edited.created);
}

#[test]
fn an_empty_plan_is_not_completed() {
    assert!(!plan_is_completed(&[]));
    assert!(!plan_is_completed(&[
        item("a", StepStatus::Completed),
        item("b", StepStatus::InProgress),
    ]));
    assert!(plan_is_completed(&[
        item("a", StepStatus::Completed),
        item("b", StepStatus::Completed),
    ]));
    let first = new_state().apply_plan_snapshot(plan(vec![]));
    assert!(first.created);
    assert!(first.updated);
    assert!(!first.completed);
    assert!(first.previous_plan.is_none());
}

#[test]
fn an_edit_without_operations_is_turned_down() {
    let mut state = new_state();
    let error = state
        .apply_external_plan_update(Some("why".to_string()), vec![])
        .expect_err("there is nothing to do");
    assert_eq!(error, "operations must not be empty");
    assert!(state.current_plan().is_none());
}

#[test]
fn an_edit_beyond_the_end_is_turned_down_as_a_whole() {
    let mut state = new_state();
    state.apply_plan_snapshot(plan(vec![item("a", StepStatus::Pending)]));
    let error = state
        .apply_external_plan_update(
            Some("why".to_string()),
            vec![
                update(0, Some("changed"), None),
                append("b", None),
                update(120, None, None),
                update(0, None, Some(StepStatus::Completed)),
            ],
        )
        .expect_err("there is no such step");
    assert_eq!(error, "plan item index 120 is out of range");
    let kept = state.current_plan().expect("plan");
    assert_eq!(*kept, plan(vec![item("a", StepStatus::Pending)]));
}

#[test]
fn a_step_completed_by_an_edit_is_closed_to_the_rest_of_it() {
    let mut state = new_state();
    let error = state
        .apply_external_plan_update(
            None,
            vec![
                append("a", Some(StepStatus::Completed)),
                update(0, Some("b"), None),
            ],
        )
        .expect_err("the step is completed by then");
    assert_eq!(error, "plan item index 0 is already completed");
    assert!(state.current_plan().is_none());
}

#[test]
fn an_edit_can_update_what_it_appended() {
    let mut state = new_state();
    let edited = state
        .apply_external_plan_update(
            None,
            vec![
                append("a", None),
                append("b", Some(StepStatus::InProgress)),
                update(1, Some("c"), None),
                update(0, None, Some(StepStatus::Completed)),
            ],
        )
        .expect("every step is open");
    assert!(edited.created);
    assert!(edited.previous_plan.is_none());
    assert_eq!(
        edited.current_plan.plan,
        vec![
            item("a", StepStatus::Completed),
            item("c", StepStatus::InProgress),
        ]
    );
}

#[test]
fn two_edits_act_as_one() {
    let mut once = new_state();
    let mut twice = new_state();
    once.apply_external_plan_update(
        None,
        vec![append("a", None), update(0, Some("b"), None)],
    )
    .expect("one edit");
    twice
        .apply_external_plan_update(None, vec![append("a", None)])
        .expect("first edit");
    twice
        .apply_external_plan_update(None, vec![update(0, Some("b"), None)])
        .expect("second edit");
    assert_eq!(once.current_plan(), twice.current_plan());
}

#[test]
fn the_explanation_stays_until_another_is_given() {
    let mut state = new_state();
    state
        .apply_external_plan_update(Some("first".to_string()), vec![append("a", None)])
        .expect("edit");
    let kept = state
        .apply_external_plan_update(None, vec![append("b", None)])
        .expect("edit");
    assert_eq!(kept.current_plan.explanation.as_deref(), Some("first"));
    let replaced = state
        .apply_external_plan_update(Some("second".to_string()), vec![append("c", None)])
        .expect("edit");
    assert_eq!(replaced.current_plan.explanation.as_deref(), Some("second"));
    assert_eq!(replaced.current_plan.plan.len(), 3);
    let copy = replaced.clone();
    assert_eq!(copy.current_plan, replaced.current_plan);
    assert_eq!(copy.previous_plan, replaced.previous_plan);
}

#[test]
fn a_waiter_is_handed_back_once() {
    let mut state = new_state();
    let (tx, mut rx) = oneshot::channel();
    assert!(state.insert_pending_approval("a".to_string(), tx).is_none());
    assert!(state.remove_pending_approval("b").is_none());
    let tx = state.remove_pending_approval("a").expect("it waits");
    assert!(state.remove_pending_approval("a").is_none());
    tx.send(true).expect("the receiver is there");
    assert!(rx.try_recv().expect("an answer"));
}

#[test]
fn a_second_waiter_takes_the_place_of_the_first() {
    let mut state = new_state();
    let (first, mut first_rx) = oneshot::channel();
    let (second, mut second_rx) = oneshot::channel();
    let (other, mut other_rx) = oneshot::channel();
    state.insert_pending_user_input("k".to_string(), first);
    state.insert_pending_user_input("other".to_string(), other);
    let handed_back = state
        .insert_pending_user_input("k".to_string(), second)
        .expect("the first waited");
    handed_back.send("one".to_string()).expect("receiver");
    state
        .remove_pending_user_input("k")
        .expect("the second waits")
        .send("two".to_string())
        .expect("receiver");
    state
        .remove_pending_user_input("other")
        .expect("it still waits")
        .send("three".to_string())
        .expect("receiver");
    assert_eq!(first_rx.try_recv().expect("answer"), "one");
    assert_eq!(second_rx.try_recv().expect("answer"), "two");
    assert_eq!(other_rx.try_recv().expect("answer"), "three");
}

#[test]
fn elicitations_are_told_apart_by_server_and_request() {
    let mut state = new_state();
    let (by_number, mut by_number_rx) = oneshot::channel();
    let (by_text, _by_text_rx) = oneshot::channel();
    let (elsewhere, _elsewhere_rx) = oneshot::channel();
    let number = RequestId::Number(7);
    let text = RequestId::String("7".to_string());
    assert!(state
        .insert_pending_elicitation("s".to_string(), number.clone(), by_number)
        .is_none());
    assert!(state
        .insert_pending_elicitation("s".to_string(), text.clone(), by_text)
        .is_none());
    assert!(state
        .insert_pending_elicitation("t".to_string(), number.clone(), elsewhere)
        .is_none());
    assert!(state.remove_pending_elicitation("u", &number).is_none());
    let tx = state
        .remove_pending_elicitation("s", &number)
        .expect("it waits");
    tx.send(-3).expect("receiver");
    assert_eq!(by_number_rx.try_recv().expect("answer"), -3);
    assert!(state.remove_pending_elicitation("s", &number).is_none());
    assert!(state.remove_pending_elicitation("s", &text).is_some());
    assert!(state.remove_pending_elicitation("t", &number).is_some());
}

#[test]
fn clearing_drops_every_waiter_and_nothing_else() {
    let mut state = new_state();
    state.apply_plan_snapshot(plan(vec![item("a", StepStatus::Pending)]));
    let (approval, mut approval_rx) = oneshot::channel();
    let (permissions, mut permissions_rx) = oneshot::channel();
    let (input, mut input_rx) = oneshot::channel();
    let (elicitation, mut elicitation_rx) = oneshot::channel();
    let (tool, mut tool_rx) = oneshot::channel();
    state.insert_pending_approval("k".to_string(), approval);
    state.insert_pending_request_permissions(
        "k".to_string(),
        PendingRequestPermissions {
            tx_response: permissions,
            requested_permissions: 5,
            cwd: "/work".to_string(),
        },
    );
    state.insert_pending_user_input("k".to_string(), input);
    state.insert_pending_elicitation("k".to_string(), RequestId::Number(1), elicitation);
    state.insert_pending_dynamic_tool("k".to_string(), tool);
    state.clear_pending_waiters();
    assert_eq!(
        approval_rx.try_recv(),
        Err(oneshot::error::TryRecvError::Closed)
    );
    assert_eq!(
        permissions_rx.try_recv(),
        Err(oneshot::error::TryRecvError::Closed)
    );
    assert_eq!(
        input_rx.try_recv(),
        Err(oneshot::error::TryRecvError::Closed)
    );
    assert_eq!(
        elicitation_rx.try_recv(),
        Err(oneshot::error::TryRecvError::Closed)
    );
    assert_eq!(
        tool_rx.try_recv(),
        Err(oneshot::error::TryRecvError::Closed)
    );
    assert!(state.remove_pending_dynamic_tool("k").is_none());
    assert_eq!(state.current_plan().expect("plan").plan.len(), 1);
}

#[test]
fn a_request_for_permissions_keeps_what_was_asked() {
    let mut state = new_state();
    let (tx_response, mut rx) = oneshot::channel();
    state.insert_pending_request_permissions(
        "k".to_string(),
        PendingRequestPermissions {
            tx_response,
            requested_permissions: 5,
            cwd: "/work".to_string(),
        },
    );
    let pending = state
        .remove_pending_request_permissions("k")
        .expect("it waits");
    assert_eq!(pending.requested_permissions, 5);
    assert_eq!(pending.cwd, "/work");
    pending.tx_response.send(9).expect("receiver");
    assert_eq!(rx.try_recv().expect("answer"), 9);

    let (tool, _tool_rx) = oneshot::channel();
    state.insert_pending_dynamic_tool("k".to_string(), tool);
    assert!(state.remove_pending_request_permissions("k").is_none());
    assert!(state.remove_pending_dynamic_tool("k").is_some());
}

#[test]
fn mail_is_welcome_until_the_answer_is_shown_and_again_on_request() {
    let mut state = new_state();
    assert!(state.accepts_mailbox_delivery_for_current_turn());
    state.set_mailbox_delivery_phase(MailboxDeliveryPhase::NextTurn);
    assert!(!state.accepts_mailbox_delivery_for_current_turn());
    state.accept_mailbox_delivery_for_current_turn();
    assert!(state.accepts_mailbox_delivery_for_current_turn());
    assert_eq!(
        MailboxDeliveryPhase::default(),
        MailboxDeliveryPhase::CurrentTurn
    );
}

fn merge(granted: Option<&Vec<u32>>, added: Option<&Vec<u32>>) -> Option<Vec<u32>> {
    let mut all = granted.cloned().unwrap_or_default();
    all.extend(added.cloned().unwrap_or_default());
    Some(all)
}

#[test]
fn granted_permissions_are_merged() {
    let mut state = new_state();
    assert!(state.granted_permissions().is_none());
    state.record_granted_permissions(vec![1], merge);
    assert_eq!(state.granted_permissions(), Some(vec![1]));
    state.record_granted_permissions(vec![2], merge);
    assert_eq!(state.granted_permissions(), Some(vec![1, 2]));
}

#[test]
fn strict_review_starts_off_and_stays_on() {
    let mut state = new_state();
    assert!(!state.strict_auto_review_enabled());
    state.enable_strict_auto_review();
    state.clear_pending_waiters();
    state.apply_plan_snapshot(plan(vec![]));
    assert!(state.strict_auto_review_enabled());
}

#[test]
fn a_turn_starts_empty() {
    let state = new_state();
    assert!(state.pending_input.is_empty());
    assert_eq!(state.tool_calls, 0);
    assert!(!state.has_memory_citation);
    assert_eq!(state.token_usage_at_turn_start, 0);
    assert!(state.current_plan().is_none());
}
