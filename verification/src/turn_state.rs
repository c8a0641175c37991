//! The state of a single turn.

use crate::plan::edit_plan;
use crate::plan::edited_plan;
use crate::plan::every_change_is_reported_as_an_update;
use crate::plan::operations_of;
use crate::plan::optional_plan_of;
use crate::plan::plan_is_completed;
use crate::plan::plan_models_show_what_is_written;
use crate::plan::text_of;
use crate::plan::ExternalPlanUpdateOperation;
use crate::plan::PlanItemArg;
use crate::plan::PlanLifecycleTransition;
use crate::plan::PlanProgress;
use crate::plan::StepStatus;
use crate::plan::UpdatePlanArgs;
use crate::waiters::ElicitationKey;
use crate::waiters::RequestId;
use crate::waiters::RequestIdModel;
use crate::waiters::WaiterMap;
use tokio::sync::oneshot;
use vstd::prelude::*;

verus! {

/// Whether mailbox deliveries should still be folded into the current turn.
///
/// A turn starts in `CurrentTurn`, so that queued mail can join its next model request. Once
/// visible final output is recorded it goes to `NextTurn`, and late mail stays queued. Explicit
/// work for the same turn opens `CurrentTurn` again.
#[derive(Clone, Copy, Debug, PartialEq, Eq, Structural)]
pub enum MailboxDeliveryPhase {
    /// Incoming mailbox messages can still be consumed by the current turn.
    CurrentTurn,
    /// The current turn has shown its final answer; mailbox messages stay queued for a later
    /// one.
    NextTurn,
}

impl Default for MailboxDeliveryPhase {
    fn default() -> (r: Self)
        ensures
            r is CurrentTurn,
    {
        MailboxDeliveryPhase::CurrentTurn
    }
}

/// The types that a turn carries without looking inside.
pub trait TurnTypes {
    /// The answer to a request for approval.
    type ReviewDecision;

    /// The answer to a request for permissions.
    type RequestPermissionsResponse;

    /// The permissions that a request asks for.
    type RequestPermissionProfile;

    /// A path that does not depend on the working directory.
    type AbsolutePath;

    /// The answer to a question to the user.
    type RequestUserInputResponse;

    /// The answer to an elicitation.
    type ElicitationResponse;

    /// What a dynamic tool hands back.
    type DynamicToolResponse;

    /// The input that waits for the next model request.
    type TurnInputQueue: Default;

    /// The permissions that were granted beyond those of the session.
    type AdditionalPermissionProfile: Clone;

    /// How many tokens have been used.
    type TokenUsage: Default;
}

/// A request for permissions that waits for its answer.
pub struct PendingRequestPermissions<T: TurnTypes> {
    pub tx_response: oneshot::Sender<T::RequestPermissionsResponse>,
    pub requested_permissions: T::RequestPermissionProfile,
    pub cwd: T::AbsolutePath,
}

/// Mutable state for a single turn.
pub struct TurnState<T: TurnTypes> {
    pending_approvals: WaiterMap<String, oneshot::Sender<T::ReviewDecision>>,
    pending_request_permissions: WaiterMap<String, PendingRequestPermissions<T>>,
    pending_user_input: WaiterMap<String, oneshot::Sender<T::RequestUserInputResponse>>,
    pending_elicitations: WaiterMap<ElicitationKey, oneshot::Sender<T::ElicitationResponse>>,
    pending_dynamic_tools: WaiterMap<String, oneshot::Sender<T::DynamicToolResponse>>,
    pub pending_input: T::TurnInputQueue,
    current_plan: Option<UpdatePlanArgs>,
    plan_completed_hook_emitted: bool,
    mailbox_delivery_phase: MailboxDeliveryPhase,
    granted_permissions: Option<T::AdditionalPermissionProfile>,
    strict_auto_review_enabled: bool,
    pub tool_calls: u64,
    pub has_memory_citation: bool,
    pub token_usage_at_turn_start: T::TokenUsage,
}

/// The model of a [`TurnState`].
pub struct TurnModel<T: TurnTypes> {
    pub pending_approvals: Map<Seq<char>, oneshot::Sender<T::ReviewDecision>>,
    pub pending_request_permissions: Map<Seq<char>, PendingRequestPermissions<T>>,
    pub pending_user_input: Map<Seq<char>, oneshot::Sender<T::RequestUserInputResponse>>,
    pub pending_elicitations: Map<
        (Seq<char>, RequestIdModel),
        oneshot::Sender<T::ElicitationResponse>,
    >,
    pub pending_dynamic_tools: Map<Seq<char>, oneshot::Sender<T::DynamicToolResponse>>,
    pub pending_input: T::TurnInputQueue,
    pub progress: PlanProgress,
    pub mailbox_delivery_phase: MailboxDeliveryPhase,
    pub granted_permissions: Option<T::AdditionalPermissionProfile>,
    pub strict_auto_review_enabled: bool,
    pub tool_calls: u64,
    pub has_memory_citation: bool,
    pub token_usage_at_turn_start: T::TokenUsage,
}

impl<T: TurnTypes> View for TurnState<T> {
    type V = TurnModel<T>;

    closed spec fn view(&self) -> TurnModel<T> {
        TurnModel {
            pending_approvals: self.pending_approvals@,
            pending_request_permissions: self.pending_request_permissions@,
            pending_user_input: self.pending_user_input@,
            pending_elicitations: self.pending_elicitations@,
            pending_dynamic_tools: self.pending_dynamic_tools@,
            pending_input: self.pending_input,
            progress: PlanProgress {
                plan: optional_plan_of(self.current_plan),
                completion_reported: self.plan_completed_hook_emitted,
            },
            mailbox_delivery_phase: self.mailbox_delivery_phase,
            granted_permissions: self.granted_permissions,
            strict_auto_review_enabled: self.strict_auto_review_enabled,
            tool_calls: self.tool_calls,
            has_memory_citation: self.has_memory_citation,
            token_usage_at_turn_start: self.token_usage_at_turn_start,
        }
    }
}

impl<T: TurnTypes> TurnModel<T> {
    /// Whether this is how a turn starts: nothing waits, nothing is planned or granted, and mail
    /// is welcome.
    pub open spec fn is_initial(self) -> bool {
        &&& self == self.without_waiters()
        &&& self.progress == PlanProgress { plan: None, completion_reported: false }
        &&& self.mailbox_delivery_phase is CurrentTurn
        &&& self.granted_permissions is None
        &&& !self.strict_auto_review_enabled
        &&& self.tool_calls == 0
        &&& !self.has_memory_citation
        &&& call_ensures(T::TurnInputQueue::default, (), self.pending_input)
        &&& call_ensures(T::TokenUsage::default, (), self.token_usage_at_turn_start)
    }

    /// Whether this can be the same turn at some time after `before`: what it has reported stays
    /// reported, a plan once made is never taken away, and strict review is never switched off.
    pub open spec fn can_follow(self, before: TurnModel<T>) -> bool {
        &&& before.progress.completion_reported ==> self.progress.completion_reported
        &&& before.progress.plan is Some ==> self.progress.plan is Some
        &&& before.strict_auto_review_enabled ==> self.strict_auto_review_enabled
    }

    /// The same turn with nothing waiting for an answer.
    pub open spec fn without_waiters(self) -> TurnModel<T> {
        TurnModel {
            pending_approvals: Map::empty(),
            pending_request_permissions: Map::empty(),
            pending_user_input: Map::empty(),
            pending_elicitations: Map::empty(),
            pending_dynamic_tools: Map::empty(),
            ..self
        }
    }
}

impl<T: TurnTypes> Default for TurnState<T> {
    fn default() -> (r: Self)
        ensures
            r@.is_initial(),
            r@.pending_approvals == Map::<
                Seq<char>,
                oneshot::Sender<T::ReviewDecision>,
            >::empty(),
            r@.pending_request_permissions == Map::<
                Seq<char>,
                PendingRequestPermissions<T>,
            >::empty(),
            r@.pending_user_input == Map::<
                Seq<char>,
                oneshot::Sender<T::RequestUserInputResponse>,
            >::empty(),
            r@.pending_elicitations == Map::<
                (Seq<char>, RequestIdModel),
                oneshot::Sender<T::ElicitationResponse>,
            >::empty(),
            r@.pending_dynamic_tools == Map::<
                Seq<char>,
                oneshot::Sender<T::DynamicToolResponse>,
            >::empty(),
            r@.progress.plan is None,
            !r@.progress.completion_reported,
            r@.mailbox_delivery_phase == MailboxDeliveryPhase::CurrentTurn,
            r@.granted_permissions is None,
            !r@.strict_auto_review_enabled,
            r@.tool_calls == 0,
            !r@.has_memory_citation,
            call_ensures(T::TurnInputQueue::default, (), r@.pending_input),
            call_ensures(T::TokenUsage::default, (), r@.token_usage_at_turn_start),
    {
        TurnState {
            pending_approvals: WaiterMap::new(),
            pending_request_permissions: WaiterMap::new(),
            pending_user_input: WaiterMap::new(),
            pending_elicitations: WaiterMap::new(),
            pending_dynamic_tools: WaiterMap::new(),
            pending_input: T::TurnInputQueue::default(),
            current_plan: None,
            plan_completed_hook_emitted: false,
            mailbox_delivery_phase: MailboxDeliveryPhase::default(),
            granted_permissions: None,
            strict_auto_review_enabled: false,
            tool_calls: 0,
            has_memory_citation: false,
            token_usage_at_turn_start: T::TokenUsage::default(),
        }
    }
}

/// The value in `value`, borrowed.
pub open spec fn borrowed<'a, V>(value: &'a Option<V>) -> Option<&'a V> {
    match value {
        Some(value) => Some(value),
        None => None,
    }
}

impl<T: TurnTypes> TurnState<T> {
    /// Replaces the plan, and tells what that makes of it.
    pub fn apply_plan_snapshot(&mut self, update: UpdatePlanArgs) -> (r: PlanLifecycleTransition)
        ensures
            r@ == old(self)@.progress.transition(update@),
            r.updated,
            r.created == old(self)@.progress.plan is None,
            r.completed <==> {
                &&& update.plan@.len() > 0
                &&& forall|i: int|
                    0 <= i < update.plan@.len() ==> (#[trigger] update.plan@[i]).status
                        == StepStatus::Completed
                &&& !old(self)@.progress.completion_reported
            },
            r.current_plan == update,
            match (old(self)@.progress.plan, r.previous_plan) {
                (Some(plan), Some(items)) => {
                    &&& items@.len() == plan.items.len()
                    &&& forall|i: int|
                        0 <= i < items@.len() ==> (#[trigger] items@[i]).step@
                            == plan.items[i].step && items@[i].status == plan.items[i].status
                },
                (None, None) => true,
                _ => false,
            },
            final(self)@ == (TurnModel {
                progress: old(self)@.progress.after(update@),
                ..old(self)@
            }),
            final(self)@.progress.plan == Some(update@),
            final(self)@.progress.completion_reported == (
            old(self)@.progress.completion_reported || r.completed),
            final(self)@.can_follow(old(self)@),
    {
        let created = self.current_plan.is_none();
        let previous_plan: Option<Vec<PlanItemArg>> = match &self.current_plan {
            Some(plan) => {
                let items = plan.plan.clone();
                assert(items@ =~= plan.plan@);
                Some(items)
            },
            None => None,
        };
        proof {
            plan_models_show_what_is_written(update, None);
            every_change_is_reported_as_an_update(self@.progress, update@);
            if self.current_plan is Some {
                plan_models_show_what_is_written(self.current_plan->0, None);
            }
        }
        let completed = plan_is_completed(&update.plan) && !self.plan_completed_hook_emitted;
        if completed {
            self.plan_completed_hook_emitted = true;
        }
        self.current_plan = Some(update.clone());
        PlanLifecycleTransition {
            created,
            updated: true,
            completed,
            previous_plan,
            current_plan: update,
        }
    }

    /// Edits the plan as asked for from outside the turn, and tells what that makes of it. If
    /// any of the operations is turned down, nothing changes.
    pub fn apply_external_plan_update(
        &mut self,
        explanation: Option<String>,
        operations: Vec<ExternalPlanUpdateOperation>,
    ) -> (r: Result<PlanLifecycleTransition, String>)
        ensures
            match edited_plan(
                old(self)@.progress.plan,
                text_of(explanation),
                operations_of(operations@),
            ) {
                Ok(plan) => {
                    &&& r matches Ok(transition)
                    &&& transition@ == old(self)@.progress.transition(plan)
                    &&& final(self)@ == (TurnModel {
                        progress: old(self)@.progress.after(plan),
                        ..old(self)@
                    })
                },
                Err(rejection) => {
                    &&& r matches Err(message)
                    &&& message@ == rejection.message()
                    &&& *final(self) == *old(self)
                },
            },
            r is Err ==> *final(self) == *old(self),
            r matches Ok(transition) ==> {
                &&& transition.updated
                &&& transition.created == old(self)@.progress.plan is None
                &&& final(self)@.progress.plan == Some(transition.current_plan@)
                &&& transition.completed <==> {
                    &&& transition.current_plan.plan@.len() > 0
                    &&& forall|i: int|
                        0 <= i < transition.current_plan.plan@.len() ==> (
                        #[trigger] transition.current_plan.plan@[i]).status
                            == StepStatus::Completed
                    &&& !old(self)@.progress.completion_reported
                }
                &&& final(self)@.progress.completion_reported == (
                old(self)@.progress.completion_reported || transition.completed)
            },
            operations@.len() == 0 ==> r is Err,
            final(self)@.can_follow(old(self)@),
    {
        let current = match &self.current_plan {
            Some(plan) => Some(plan.clone()),
            None => None,
        };
        match edit_plan(current, explanation, operations) {
            Ok(next) => Ok(self.apply_plan_snapshot(next)),
            Err(message) => Err(message),
        }
    }

    /// The plan of the latest update.
    pub fn current_plan(&self) -> (r: Option<&UpdatePlanArgs>)
        ensures
            match r {
                Some(plan) => self@.progress.plan == Some(plan@),
                None => self@.progress.plan is None,
            },
    {
        self.current_plan.as_ref()
    }

    /// Lets `tx` wait for the approval that `key` stands for, and hands back what waited there.
    pub fn insert_pending_approval(
        &mut self,
        key: String,
        tx: oneshot::Sender<T::ReviewDecision>,
    ) -> (r: Option<oneshot::Sender<T::ReviewDecision>>)
        ensures
            r == old(self)@.pending_approvals.get(key@),
            final(self)@ == (TurnModel {
                pending_approvals: old(self)@.pending_approvals.insert(key@, tx),
                ..old(self)@
            }),
            final(self)@.can_follow(old(self)@),
    {
        self.pending_approvals.insert(key, tx)
    }

    /// Takes away what waits for the approval that `key` stands for, and hands it back.
    pub fn remove_pending_approval(
        &mut self,
        key: &str,
    ) -> (r: Option<oneshot::Sender<T::ReviewDecision>>)
        ensures
            r == old(self)@.pending_approvals.get(key@),
            final(self)@ == (TurnModel {
                pending_approvals: old(self)@.pending_approvals.remove(key@),
                ..old(self)@
            }),
            final(self)@.can_follow(old(self)@),
    {
        self.pending_approvals.remove(&key.to_owned())
    }

    /// Lets `pending_request_permissions` wait for the permissions that `key` stands for, and
    /// hands back what waited there.
    pub fn insert_pending_request_permissions(
        &mut self,
        key: String,
        pending_request_permissions: PendingRequestPermissions<T>,
    ) -> (r: Option<PendingRequestPermissions<T>>)
        ensures
            r == old(self)@.pending_request_permissions.get(key@),
            final(self)@ == (TurnModel {
                pending_request_permissions: old(self)@.pending_request_permissions.insert(
                    key@,
                    pending_request_permissions,
                ),
                ..old(self)@
            }),
            final(self)@.can_follow(old(self)@),
    {
        self.pending_request_permissions.insert(key, pending_request_permissions)
    }

    /// Takes away what waits for the permissions that `key` stands for, and hands it back.
    pub fn remove_pending_request_permissions(
        &mut self,
        key: &str,
    ) -> (r: Option<PendingRequestPermissions<T>>)
        ensures
            r == old(self)@.pending_request_permissions.get(key@),
            final(self)@ == (TurnModel {
                pending_request_permissions: old(self)@.pending_request_permissions.remove(key@),
                ..old(self)@
            }),
            final(self)@.can_follow(old(self)@),
    {
        self.pending_request_permissions.remove(&key.to_owned())
    }

    /// Lets `tx` wait for the user input that `key` stands for, and hands back what waited there.
    pub fn insert_pending_user_input(
        &mut self,
        key: String,
        tx: oneshot::Sender<T::RequestUserInputResponse>,
    ) -> (r: Option<oneshot::Sender<T::RequestUserInputResponse>>)
        ensures
            r == old(self)@.pending_user_input.get(key@),
            final(self)@ == (TurnModel {
                pending_user_input: old(self)@.pending_user_input.insert(key@, tx),
                ..old(self)@
            }),
            final(self)@.can_follow(old(self)@),
    {
        self.pending_user_input.insert(key, tx)
    }

    /// Takes away what waits for the user input that `key` stands for, and hands it back.
    pub fn remove_pending_user_input(
        &mut self,
        key: &str,
    ) -> (r: Option<oneshot::Sender<T::RequestUserInputResponse>>)
        ensures
            r == old(self)@.pending_user_input.get(key@),
            final(self)@ == (TurnModel {
                pending_user_input: old(self)@.pending_user_input.remove(key@),
                ..old(self)@
            }),
            final(self)@.can_follow(old(self)@),
    {
        self.pending_user_input.remove(&key.to_owned())
    }

    /// Lets `tx` wait for the answer to a request of a server, and hands back what waited there.
    pub fn insert_pending_elicitation(
        &mut self,
        server_name: String,
        request_id: RequestId,
        tx: oneshot::Sender<T::ElicitationResponse>,
    ) -> (r: Option<oneshot::Sender<T::ElicitationResponse>>)
        ensures
            r == old(self)@.pending_elicitations.get((server_name@, request_id@)),
            final(self)@ == (TurnModel {
                pending_elicitations: old(self)@.pending_elicitations.insert(
                    (server_name@, request_id@),
                    tx,
                ),
                ..old(self)@
            }),
            final(self)@.can_follow(old(self)@),
    {
        self.pending_elicitations.insert(ElicitationKey { server_name, request_id }, tx)
    }

    /// Takes away what waits for the answer to a request of a server, and hands it back.
    pub fn remove_pending_elicitation(
        &mut self,
        server_name: &str,
        request_id: &RequestId,
    ) -> (r: Option<oneshot::Sender<T::ElicitationResponse>>)
        ensures
            r == old(self)@.pending_elicitations.get((server_name@, request_id@)),
            final(self)@ == (TurnModel {
                pending_elicitations: old(self)@.pending_elicitations.remove(
                    (server_name@, request_id@),
                ),
                ..old(self)@
            }),
            final(self)@.can_follow(old(self)@),
    {
        self.pending_elicitations.remove(
            &ElicitationKey { server_name: server_name.to_owned(), request_id: request_id.clone() },
        )
    }

    /// Lets `tx` wait for the dynamic tool that `key` stands for, and hands back what waited there.
    pub fn insert_pending_dynamic_tool(
        &mut self,
        key: String,
        tx: oneshot::Sender<T::DynamicToolResponse>,
    ) -> (r: Option<oneshot::Sender<T::DynamicToolResponse>>)
        ensures
            r == old(self)@.pending_dynamic_tools.get(key@),
            final(self)@ == (TurnModel {
                pending_dynamic_tools: old(self)@.pending_dynamic_tools.insert(key@, tx),
                ..old(self)@
            }),
            final(self)@.can_follow(old(self)@),
    {
        self.pending_dynamic_tools.insert(key, tx)
    }

    /// Takes away what waits for the dynamic tool that `key` stands for, and hands it back.
    pub fn remove_pending_dynamic_tool(
        &mut self,
        key: &str,
    ) -> (r: Option<oneshot::Sender<T::DynamicToolResponse>>)
        ensures
            r == old(self)@.pending_dynamic_tools.get(key@),
            final(self)@ == (TurnModel {
                pending_dynamic_tools: old(self)@.pending_dynamic_tools.remove(key@),
                ..old(self)@
            }),
            final(self)@.can_follow(old(self)@),
    {
        self.pending_dynamic_tools.remove(&key.to_owned())
    }

    /// Drops everything that waits for an answer.
    pub fn clear_pending_waiters(&mut self)
        ensures
            final(self)@ == old(self)@.without_waiters(),
            final(self)@ == (TurnModel {
                pending_approvals: Map::empty(),
                pending_request_permissions: Map::empty(),
                pending_user_input: Map::empty(),
                pending_elicitations: Map::empty(),
                pending_dynamic_tools: Map::empty(),
                ..old(self)@
            }),
            final(self)@.can_follow(old(self)@),
    {
        self.pending_approvals.clear();
        self.pending_request_permissions.clear();
        self.pending_user_input.clear();
        self.pending_elicitations.clear();
        self.pending_dynamic_tools.clear();
    }

    /// Lets mailbox deliveries join the current turn again.
    pub fn accept_mailbox_delivery_for_current_turn(&mut self)
        ensures
            final(self)@ == (TurnModel {
                mailbox_delivery_phase: MailboxDeliveryPhase::CurrentTurn,
                ..old(self)@
            }),
            final(self)@.can_follow(old(self)@),
    {
        self.set_mailbox_delivery_phase(MailboxDeliveryPhase::CurrentTurn);
    }

    /// Tells whether mailbox deliveries can join the current turn.
    pub fn accepts_mailbox_delivery_for_current_turn(&self) -> (r: bool)
        ensures
            r == (self@.mailbox_delivery_phase is CurrentTurn),
    {
        self.mailbox_delivery_phase == MailboxDeliveryPhase::CurrentTurn
    }

    /// Says which turn mailbox deliveries go to from now on.
    pub fn set_mailbox_delivery_phase(&mut self, phase: MailboxDeliveryPhase)
        ensures
            final(self)@ == (TurnModel { mailbox_delivery_phase: phase, ..old(self)@ }),
            final(self)@.can_follow(old(self)@),
    {
        self.mailbox_delivery_phase = phase;
    }

    /// Adds to the permissions that were granted, as `merge_permission_profiles` says: it is
    /// handed those granted so far and the new ones.
    pub fn record_granted_permissions<
        F: FnOnce(
            Option<&T::AdditionalPermissionProfile>,
            Option<&T::AdditionalPermissionProfile>,
        ) -> Option<T::AdditionalPermissionProfile>,
    >(
        &mut self,
        permissions: T::AdditionalPermissionProfile,
        merge_permission_profiles: F,
    )
        requires
            call_requires(
                merge_permission_profiles,
                (borrowed(&old(self)@.granted_permissions), Some(&permissions)),
            ),
        ensures
            call_ensures(
                merge_permission_profiles,
                (borrowed(&old(self)@.granted_permissions), Some(&permissions)),
                final(self)@.granted_permissions,
            ),
            final(self)@ == (TurnModel {
                granted_permissions: final(self)@.granted_permissions,
                ..old(self)@
            }),
            final(self)@.can_follow(old(self)@),
    {
        let merged = merge_permission_profiles(
            self.granted_permissions.as_ref(),
            Some(&permissions),
        );
        self.granted_permissions = merged;
    }

    /// A copy of the permissions that were granted.
    pub fn granted_permissions(&self) -> (r: Option<T::AdditionalPermissionProfile>)
        ensures
            match (self@.granted_permissions, r) {
                (Some(granted), Some(copy)) => cloned(granted, copy),
                (None, None) => true,
                _ => false,
            },
    {
        self.granted_permissions.clone()
    }

    /// Has every action of the rest of the turn reviewed.
    pub fn enable_strict_auto_review(&mut self)
        ensures
            final(self)@ == (TurnModel { strict_auto_review_enabled: true, ..old(self)@ }),
            final(self)@.can_follow(old(self)@),
    {
        self.strict_auto_review_enabled = true;
    }

    /// Tells whether every action is reviewed.
    pub fn strict_auto_review_enabled(&self) -> (r: bool)
        ensures
            r == self@.strict_auto_review_enabled,
    {
        self.strict_auto_review_enabled
    }
}

/// Law: what holds from one state of a turn to the next holds over any stretch of it.
pub proof fn following_is_transitive<T: TurnTypes>(
    first: TurnModel<T>,
    second: TurnModel<T>,
    third: TurnModel<T>,
)
    requires
        second.can_follow(first),
        third.can_follow(second),
    ensures
        third.can_follow(first),
{
}

/// Law: clearing the waiters touches nothing else of a turn, and doing it again changes nothing.
pub proof fn clearing_touches_only_waiters<T: TurnTypes>(turn: TurnModel<T>)
    ensures
        turn.without_waiters().pending_input == turn.pending_input,
        turn.without_waiters().progress == turn.progress,
        turn.without_waiters().mailbox_delivery_phase == turn.mailbox_delivery_phase,
        turn.without_waiters().granted_permissions == turn.granted_permissions,
        turn.without_waiters().strict_auto_review_enabled == turn.strict_auto_review_enabled,
        turn.without_waiters().tool_calls == turn.tool_calls,
        turn.without_waiters().has_memory_citation == turn.has_memory_citation,
        turn.without_waiters().token_usage_at_turn_start == turn.token_usage_at_turn_start,
        turn.without_waiters().without_waiters() == turn.without_waiters(),
{
}

/// The model of a turn shows each of its fields as it is.
proof fn lemma_model_shows_the_turn<T: TurnTypes>(turn: TurnState<T>)
    ensures
        turn@.pending_approvals == turn.pending_approvals@,
        turn@.pending_request_permissions == turn.pending_request_permissions@,
        turn@.pending_user_input == turn.pending_user_input@,
        turn@.pending_elicitations == turn.pending_elicitations@,
        turn@.pending_dynamic_tools == turn.pending_dynamic_tools@,
        turn@.pending_input == turn.pending_input,
        turn@.progress.plan == match turn.current_plan {
            Some(plan) => Some(plan@),
            None => None,
        },
        turn@.progress.completion_reported == turn.plan_completed_hook_emitted,
        turn@.mailbox_delivery_phase == turn.mailbox_delivery_phase,
        turn@.granted_permissions == turn.granted_permissions,
        turn@.strict_auto_review_enabled == turn.strict_auto_review_enabled,
        turn@.tool_calls == turn.tool_calls,
        turn@.has_memory_citation == turn.has_memory_citation,
        turn@.token_usage_at_turn_start == turn.token_usage_at_turn_start,
{
}

/// Law: every turn starts alike: nothing waits, nothing is planned, reported or granted, nothing
/// is counted, mail is welcome, and review is not strict.
pub proof fn a_turn_starts_with_nothing<T: TurnTypes>(turn: TurnModel<T>)
    requires
        turn.is_initial(),
    ensures
        turn.pending_approvals.dom() == Set::<Seq<char>>::empty(),
        turn.pending_request_permissions.dom() == Set::<Seq<char>>::empty(),
        turn.pending_user_input.dom() == Set::<Seq<char>>::empty(),
        turn.pending_elicitations.dom() == Set::<(Seq<char>, RequestIdModel)>::empty(),
        turn.pending_dynamic_tools.dom() == Set::<Seq<char>>::empty(),
        turn.progress.plan is None,
        !turn.progress.completion_reported,
        turn.mailbox_delivery_phase == MailboxDeliveryPhase::CurrentTurn,
        turn.granted_permissions is None,
        !turn.strict_auto_review_enabled,
        turn.tool_calls == 0,
        !turn.has_memory_citation,
{
}

/// Law: once the waiters are cleared, nothing waits under any key of any kind.
pub proof fn clearing_leaves_no_waiter<T: TurnTypes>(
    turn: TurnModel<T>,
    key: Seq<char>,
    elicitation: (Seq<char>, RequestIdModel),
)
    ensures
        !turn.without_waiters().pending_approvals.contains_key(key),
        !turn.without_waiters().pending_request_permissions.contains_key(key),
        !turn.without_waiters().pending_user_input.contains_key(key),
        !turn.without_waiters().pending_elicitations.contains_key(elicitation),
        !turn.without_waiters().pending_dynamic_tools.contains_key(key),
{
}

/// Law: in a later state of a turn no report of a completion, no plan and no strict review of an
/// earlier one is lost.
pub proof fn nothing_reported_is_lost<T: TurnTypes>(before: TurnModel<T>, later: TurnModel<T>)
    requires
        later.can_follow(before),
    ensures
        before.progress.completion_reported ==> later.progress.completion_reported,
        before.progress.plan is Some ==> later.progress.plan is Some,
        before.strict_auto_review_enabled ==> later.strict_auto_review_enabled,
{
}

/// Law: a value that is borrowed is there exactly if it was there before, and is the same.
pub proof fn borrowing_keeps_the_value<V>(value: Option<V>)
    ensures
        borrowed(&value) is Some <==> value is Some,
        value matches Some(inner) ==> borrowed(&value) == Some(&inner),
{
}

} // verus!
