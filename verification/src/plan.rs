//! Plans, the operations that edit them, and the lifecycle that their updates go through.

use crate::text::decimal;
use crate::text::decimal_text;
use vstd::prelude::*;
use vstd::string::*;

verus! {

/// How far a step of a plan has come.
#[derive(Clone, Copy, Debug, PartialEq, Eq, Structural)]
pub enum StepStatus {
    Pending,
    InProgress,
    Completed,
}

/// One step of a plan.
#[derive(Debug, PartialEq, Eq)]
pub struct PlanItemArg {
    pub step: String,
    pub status: StepStatus,
}

/// A whole plan, with the reason that was given for its latest change.
#[derive(Debug, PartialEq, Eq)]
pub struct UpdatePlanArgs {
    pub explanation: Option<String>,
    pub plan: Vec<PlanItemArg>,
}

/// One edit that is asked for from outside the turn.
#[derive(Debug, PartialEq, Eq)]
pub enum ExternalPlanUpdateOperation {
    /// Adds a step at the end of the plan, pending unless a status is given.
    Append { step: String, status: Option<StepStatus> },
    /// Replaces what is given of the step at `index`.
    Update { index: usize, step: Option<String>, status: Option<StepStatus> },
}

/// What an update made of a plan.
#[derive(Debug)]
pub struct PlanLifecycleTransition {
    pub created: bool,
    pub updated: bool,
    pub completed: bool,
    pub previous_plan: Option<Vec<PlanItemArg>>,
    pub current_plan: UpdatePlanArgs,
}

/// The model of a [`PlanItemArg`].
pub struct PlanItem {
    pub step: Seq<char>,
    pub status: StepStatus,
}

/// The model of an [`UpdatePlanArgs`].
pub struct Plan {
    pub explanation: Option<Seq<char>>,
    pub items: Seq<PlanItem>,
}

/// The model of an [`ExternalPlanUpdateOperation`].
pub enum PlanOperation {
    Append { step: Seq<char>, status: Option<StepStatus> },
    Update { index: nat, step: Option<Seq<char>>, status: Option<StepStatus> },
}

/// The model of a [`PlanLifecycleTransition`].
pub struct PlanTransition {
    pub created: bool,
    pub updated: bool,
    pub completed: bool,
    pub previous_plan: Option<Seq<PlanItem>>,
    pub current_plan: Plan,
}

/// The characters of an optional text.
pub open spec fn text_of(text: Option<String>) -> Option<Seq<char>> {
    match text {
        Some(text) => Some(text@),
        None => None,
    }
}

/// The models of the steps in a list.
pub open spec fn items_of(items: Seq<PlanItemArg>) -> Seq<PlanItem> {
    items.map_values(|item: PlanItemArg| item@)
}

/// The models of the steps in an optional list.
pub open spec fn optional_items_of(items: Option<Vec<PlanItemArg>>) -> Option<Seq<PlanItem>> {
    match items {
        Some(items) => Some(items_of(items@)),
        None => None,
    }
}

/// The models of the operations in a list.
pub open spec fn operations_of(operations: Seq<ExternalPlanUpdateOperation>) -> Seq<
    PlanOperation,
> {
    operations.map_values(|operation: ExternalPlanUpdateOperation| operation@)
}

/// The model of an optional plan.
pub open spec fn optional_plan_of(plan: Option<UpdatePlanArgs>) -> Option<Plan> {
    match plan {
        Some(plan) => Some(plan@),
        None => None,
    }
}

impl View for PlanItemArg {
    type V = PlanItem;

    open spec fn view(&self) -> PlanItem {
        PlanItem { step: self.step@, status: self.status }
    }
}

impl View for UpdatePlanArgs {
    type V = Plan;

    open spec fn view(&self) -> Plan {
        Plan { explanation: text_of(self.explanation), items: items_of(self.plan@) }
    }
}

impl View for ExternalPlanUpdateOperation {
    type V = PlanOperation;

    open spec fn view(&self) -> PlanOperation {
        match *self {
            ExternalPlanUpdateOperation::Append { step, status } => PlanOperation::Append {
                step: step@,
                status,
            },
            ExternalPlanUpdateOperation::Update { index, step, status } => PlanOperation::Update {
                index: index as nat,
                step: text_of(step),
                status,
            },
        }
    }
}

impl View for PlanLifecycleTransition {
    type V = PlanTransition;

    open spec fn view(&self) -> PlanTransition {
        PlanTransition {
            created: self.created,
            updated: self.updated,
            completed: self.completed,
            previous_plan: optional_items_of(self.previous_plan),
            current_plan: self.current_plan@,
        }
    }
}

impl Clone for PlanItemArg {
    fn clone(&self) -> (r: Self)
        ensures
            r == *self,
    {
        PlanItemArg { step: self.step.clone(), status: self.status }
    }
}

impl Clone for UpdatePlanArgs {
    fn clone(&self) -> (r: Self)
        ensures
            r@ == self@,
            r.explanation == self.explanation,
            r.plan@ == self.plan@,
    {
        let r = UpdatePlanArgs {
            explanation: self.explanation.clone(),
            plan: self.plan.clone(),
        };
        assert(r.plan@ =~= self.plan@);
        r
    }
}

impl Clone for PlanLifecycleTransition {
    fn clone(&self) -> (r: Self)
        ensures
            r@ == self@,
            r.created == self.created,
            r.updated == self.updated,
            r.completed == self.completed,
            match (self.previous_plan, r.previous_plan) {
                (Some(items), Some(copy)) => copy@ == items@,
                (None, None) => true,
                _ => false,
            },
            r.current_plan.explanation == self.current_plan.explanation,
            r.current_plan.plan@ == self.current_plan.plan@,
    {
        let previous_plan = match &self.previous_plan {
            Some(items) => {
                let copy = items.clone();
                assert(copy@ =~= items@);
                Some(copy)
            },
            None => None,
        };
        PlanLifecycleTransition {
            created: self.created,
            updated: self.updated,
            completed: self.completed,
            previous_plan,
            current_plan: self.current_plan.clone(),
        }
    }
}

/// Whether every one of the steps, of which there is at least one, is completed.
pub open spec fn items_completed(items: Seq<PlanItem>) -> bool {
    &&& items.len() > 0
    &&& forall|i: int| 0 <= i < items.len() ==> (#[trigger] items[i]).status is Completed
}

/// Tells whether a plan has steps and all of them are completed.
pub fn plan_is_completed(plan: &[PlanItemArg]) -> (r: bool)
    ensures
        r == items_completed(items_of(plan@)),
        r <==> plan@.len() > 0 && forall|i: int|
            0 <= i < plan@.len() ==> (#[trigger] plan@[i]).status == StepStatus::Completed,
{
    if plan.len() == 0 {
        return false;
    }
    let mut i: usize = 0;
    while i < plan.len()
        invariant
            i <= plan@.len(),
            plan@.len() > 0,
            forall|j: int|
                0 <= j < i ==> (#[trigger] plan@[j]).status == StepStatus::Completed,
            forall|j: int|
                0 <= j < i ==> (#[trigger] items_of(plan@)[j]).status is Completed,
        decreases plan@.len() - i,
    {
        if plan[i].status != StepStatus::Completed {
            assert(!(items_of(plan@)[i as int].status is Completed));
            return false;
        }
        i = i + 1;
    }
    true
}

/// Why a list of operations is turned down.
pub enum PlanRejection {
    /// There are no operations.
    NoOperations,
    /// An update names a step that the plan does not have.
    OutOfRange { index: nat },
    /// An update names a step that is completed.
    AlreadyCompleted { index: nat },
}

impl PlanRejection {
    /// The message that goes with the rejection.
    pub open spec fn message(self) -> Seq<char> {
        match self {
            PlanRejection::NoOperations => "operations must not be empty"@,
            PlanRejection::OutOfRange { index } => "plan item index "@ + decimal(index)
                + " is out of range"@,
            PlanRejection::AlreadyCompleted { index } => "plan item index "@ + decimal(index)
                + " is already completed"@,
        }
    }
}

/// `value` if there is one, and `fallback` otherwise.
pub open spec fn or_else<T>(value: Option<T>, fallback: T) -> T {
    match value {
        Some(value) => value,
        None => fallback,
    }
}

/// The steps after one operation, or why it is turned down.
pub open spec fn apply_operation(items: Seq<PlanItem>, operation: PlanOperation) -> Result<
    Seq<PlanItem>,
    PlanRejection,
> {
    match operation {
        PlanOperation::Append { step, status } => Ok(
            items.push(PlanItem { step, status: or_else(status, StepStatus::Pending) }),
        ),
        PlanOperation::Update { index, step, status } => if index >= items.len() {
            Err(PlanRejection::OutOfRange { index })
        } else if items[index as int].status is Completed {
            Err(PlanRejection::AlreadyCompleted { index })
        } else {
            let item = items[index as int];
            Ok(
                items.update(
                    index as int,
                    PlanItem {
                        step: or_else(step, item.step),
                        status: or_else(status, item.status),
                    },
                ),
            )
        },
    }
}

/// The steps after all the operations, each applied to what those before it left, or why the
/// first one that fails is turned down.
pub open spec fn apply_operations(items: Seq<PlanItem>, operations: Seq<PlanOperation>) -> Result<
    Seq<PlanItem>,
    PlanRejection,
>
    decreases operations.len(),
{
    if operations.len() == 0 {
        Ok(items)
    } else {
        match apply_operations(items, operations.drop_last()) {
            Ok(items) => apply_operation(items, operations.last()),
            Err(rejection) => Err(rejection),
        }
    }
}

/// The plan that an edit starts from: the current one, or an empty one.
pub open spec fn base_plan(current: Option<Plan>) -> Plan {
    or_else(current, Plan { explanation: None, items: Seq::empty() })
}

/// The plan that an edit from outside the turn makes, or why it is turned down. An explanation
/// replaces the one before it; without one, that stays.
pub open spec fn edited_plan(
    current: Option<Plan>,
    explanation: Option<Seq<char>>,
    operations: Seq<PlanOperation>,
) -> Result<Plan, PlanRejection> {
    if operations.len() == 0 {
        Err(PlanRejection::NoOperations)
    } else {
        match apply_operations(base_plan(current).items, operations) {
            Ok(items) => Ok(
                Plan {
                    explanation: match explanation {
                        Some(explanation) => Some(explanation),
                        None => base_plan(current).explanation,
                    },
                    items,
                },
            ),
            Err(rejection) => Err(rejection),
        }
    }
}

fn index_message(index: usize, ending: &str) -> (r: String)
    ensures
        r@ == "plan item index "@ + decimal(index as nat) + ending@,
{
    "plan item index ".to_owned().concat(decimal_text(index as u64).as_str()).concat(ending)
}

/// Edits a plan. Nothing of the edit is kept unless every operation is accepted.
pub fn edit_plan(
    current: Option<UpdatePlanArgs>,
    explanation: Option<String>,
    operations: Vec<ExternalPlanUpdateOperation>,
) -> (r: Result<UpdatePlanArgs, String>)
    ensures
        match edited_plan(
            optional_plan_of(current),
            text_of(explanation),
            operations_of(operations@),
        ) {
            Ok(plan) => r matches Ok(edited) && edited@ == plan,
            Err(rejection) => r matches Err(message) && message@ == rejection.message(),
        },
        operations@.len() == 0 ==> (r matches Err(message) && message@
            == "operations must not be empty"@),
        r matches Ok(edited) ==> edited.explanation == match (explanation, current) {
            (Some(given), _) => Some(given),
            (None, Some(plan)) => plan.explanation,
            (None, None) => None,
        },
        operations@.len() == 1 ==> (operations@[0] matches ExternalPlanUpdateOperation::Append {
            step,
            status,
        } ==> {
            let before = match current {
                Some(plan) => plan.plan@,
                None => Seq::empty(),
            };
            &&& r matches Ok(edited)
            &&& edited.plan@ == before.push(
                PlanItemArg {
                    step,
                    status: match status {
                        Some(status) => status,
                        None => StepStatus::Pending,
                    },
                },
            )
        }),
        operations@.len() == 1 ==> (operations@[0] matches ExternalPlanUpdateOperation::Update {
            index,
            step,
            status,
        } ==> {
            let before = match current {
                Some(plan) => plan.plan@,
                None => Seq::empty(),
            };
            if index >= before.len() {
                r matches Err(message) && message@ == "plan item index "@ + decimal(index as nat)
                    + " is out of range"@
            } else if before[index as int].status == StepStatus::Completed {
                r matches Err(message) && message@ == "plan item index "@ + decimal(index as nat)
                    + " is already completed"@
            } else {
                &&& r matches Ok(edited)
                &&& edited.plan@ == before.update(
                    index as int,
                    PlanItemArg {
                        step: match step {
                            Some(step) => step,
                            None => before[index as int].step,
                        },
                        status: match status {
                            Some(status) => status,
                            None => before[index as int].status,
                        },
                    },
                )
            }
        }),
{
    if operations.is_empty() {
        return Err("operations must not be empty".to_owned());
    }
    let ghost ops = operations_of(operations@);
    let mut next = match current {
        Some(plan) => plan,
        None => UpdatePlanArgs { explanation: None, plan: Vec::new() },
    };
    let ghost items = items_of(next.plan@);
    let ghost first = next.plan@;
    if explanation.is_some() {
        next.explanation = explanation;
    }
    let ghost text = next.explanation;
    assert(ops.take(0) =~= Seq::empty());
    for operation in it: operations
        invariant
            items == base_plan(optional_plan_of(current)).items,
            ops == operations_of(operations@),
            ops == operations_of(it.seq()),
            ops.len() > 0,
            apply_operations(items, ops.take(it.index())) == Ok::<_, PlanRejection>(
                items_of(next.plan@),
            ),
            next.explanation == text,
            it.seq() == operations@,
            first == match current {
                Some(plan) => plan.plan@,
                None => Seq::empty(),
            },
            it.index() == 0 ==> next.plan@ == first,
            it.index() == 1 && operations@.len() == 1 ==> match operations@[0] {
                ExternalPlanUpdateOperation::Append { step, status } => next.plan@ == first.push(
                    PlanItemArg {
                        step,
                        status: match status {
                            Some(status) => status,
                            None => StepStatus::Pending,
                        },
                    },
                ),
                ExternalPlanUpdateOperation::Update { index, step, status } => index < first.len()
                    && first[index as int].status != StepStatus::Completed && next.plan@
                    == first.update(
                    index as int,
                    PlanItemArg {
                        step: match step {
                            Some(step) => step,
                            None => first[index as int].step,
                        },
                        status: match status {
                            Some(status) => status,
                            None => first[index as int].status,
                        },
                    },
                ),
            },
    {
        assert(operation@ == ops[it.index()]);
        let ghost done = ops.take(it.index() + 1);
        assert(done.drop_last() =~= ops.take(it.index()));
        assert(done + ops.skip(it.index() + 1) =~= ops);
        let ghost before = items_of(next.plan@);
        match operation {
            ExternalPlanUpdateOperation::Append { step, status } => {
                next.plan.push(PlanItemArg { step, status: status.unwrap_or(StepStatus::Pending) });
                assert(items_of(next.plan@) =~= before.push(next.plan@.last()@));
            },
            ExternalPlanUpdateOperation::Update { index, step, status } => {
                if index >= next.plan.len() {
                    proof {
                        edits_compose(items, done, ops.skip(it.index() + 1));
                    }
                    return Err(index_message(index, " is out of range"));
                }
                if next.plan[index].status == StepStatus::Completed {
                    proof {
                        edits_compose(items, done, ops.skip(it.index() + 1));
                    }
                    return Err(index_message(index, " is already completed"));
                }
                let item = &mut next.plan[index];
                if let Some(step) = step {
                    item.step = step;
                }
                if let Some(status) = status {
                    item.status = status;
                }
                assert(items_of(next.plan@) =~= before.update(
                    index as int,
                    next.plan@[index as int]@,
                ));
            },
        }
    }
    assert(ops.take(ops.len() as int) =~= ops);
    Ok(next)
}

/// What a turn remembers of its plan.
pub struct PlanProgress {
    /// The plan of the latest update.
    pub plan: Option<Plan>,
    /// Whether an update has already been reported as the one that completed the plan.
    pub completion_reported: bool,
}

impl PlanProgress {
    /// The progress after an update to `plan`.
    pub open spec fn after(self, plan: Plan) -> PlanProgress {
        PlanProgress {
            plan: Some(plan),
            completion_reported: self.completion_reported || items_completed(plan.items),
        }
    }

    /// What an update to `plan` is reported as.
    pub open spec fn transition(self, plan: Plan) -> PlanTransition {
        PlanTransition {
            created: self.plan is None,
            updated: true,
            completed: items_completed(plan.items) && !self.completion_reported,
            previous_plan: match self.plan {
                Some(previous) => Some(previous.items),
                None => None,
            },
            current_plan: plan,
        }
    }
}

/// One way in which the plan of a turn can be changed.
pub enum PlanChange {
    /// The plan is replaced.
    Snapshot { plan: Plan },
    /// The plan is edited from outside the turn.
    Edit { explanation: Option<Seq<char>>, operations: Seq<PlanOperation> },
}

impl PlanChange {
    /// The plan that the change asks for, or why it is turned down.
    pub open spec fn outcome(self, progress: PlanProgress) -> Result<Plan, PlanRejection> {
        match self {
            PlanChange::Snapshot { plan } => Ok(plan),
            PlanChange::Edit { explanation, operations } => edited_plan(
                progress.plan,
                explanation,
                operations,
            ),
        }
    }
}

/// The progress after a series of changes, of which those that are turned down count for
/// nothing.
pub open spec fn progress_after(start: PlanProgress, changes: Seq<PlanChange>) -> PlanProgress
    decreases changes.len(),
{
    if changes.len() == 0 {
        start
    } else {
        let before = progress_after(start, changes.drop_last());
        match changes.last().outcome(before) {
            Ok(plan) => before.after(plan),
            Err(_) => before,
        }
    }
}

/// Whether the last of a series of changes is reported as the one that completed the plan.
pub open spec fn last_completes(start: PlanProgress, changes: Seq<PlanChange>) -> bool {
    let before = progress_after(start, changes.drop_last());
    match changes.last().outcome(before) {
        Ok(plan) => before.transition(plan).completed,
        Err(_) => false,
    }
}

/// How many of a series of changes are reported as the one that completed the plan.
pub open spec fn completions(start: PlanProgress, changes: Seq<PlanChange>) -> nat
    decreases changes.len(),
{
    if changes.len() == 0 {
        0
    } else {
        completions(start, changes.drop_last()) + if last_completes(start, changes) {
            1nat
        } else {
            0nat
        }
    }
}

/// Law: whatever mix of replacements and edits the plan of a turn goes through, its completion
/// is reported at most once. It is reported exactly if the turn had not reported it before and
/// has by the end.
pub proof fn completion_is_reported_at_most_once(start: PlanProgress, changes: Seq<PlanChange>)
    ensures
        completions(start, changes) <= 1,
        start.completion_reported ==> progress_after(start, changes).completion_reported,
        completions(start, changes) == 1 <==> !start.completion_reported && progress_after(
            start,
            changes,
        ).completion_reported,
    decreases changes.len(),
{
    if changes.len() > 0 {
        completion_is_reported_at_most_once(start, changes.drop_last());
    }
}

/// Law: the completion of a plan is reported as soon as there is something to report: a turn
/// whose plan is all completed has reported it.
pub proof fn completed_plan_has_been_reported(start: PlanProgress, changes: Seq<PlanChange>)
    requires
        start.plan matches Some(plan) ==> items_completed(plan.items) ==> start.completion_reported,
    ensures
        progress_after(start, changes).plan matches Some(plan) ==> items_completed(plan.items)
            ==> progress_after(start, changes).completion_reported,
    decreases changes.len(),
{
    if changes.len() > 0 {
        completed_plan_has_been_reported(start, changes.drop_last());
    }
}

/// Law: a change is reported as a creation only while there is no plan yet, and from the first
/// change that is not turned down there is one.
pub proof fn plan_is_created_once(start: PlanProgress, changes: Seq<PlanChange>, next: Plan)
    requires
        start.plan is Some,
    ensures
        progress_after(start, changes).plan is Some,
        !progress_after(start, changes).transition(next).created,
    decreases changes.len(),
{
    if changes.len() > 0 {
        plan_is_created_once(start, changes.drop_last(), next);
    }
}

/// Law: an edit that is turned down leaves everything as it was.
pub proof fn rejected_edit_changes_nothing(
    start: PlanProgress,
    explanation: Option<Seq<char>>,
    operations: Seq<PlanOperation>,
)
    requires
        edited_plan(start.plan, explanation, operations) is Err,
    ensures
        progress_after(start, seq![PlanChange::Edit { explanation, operations }]) == start,
{
    let changes = seq![PlanChange::Edit { explanation, operations }];
    assert(changes.drop_last() =~= Seq::empty());
    assert(progress_after(start, changes.drop_last()) == start);
}

/// Law: a completed step is never changed by an edit, whatever else the edit does.
pub proof fn completed_steps_are_kept(items: Seq<PlanItem>, operations: Seq<PlanOperation>)
    ensures
        apply_operations(items, operations) matches Ok(edited) ==> {
            &&& edited.len() >= items.len()
            &&& forall|i: int|
                0 <= i < items.len() && (#[trigger] items[i]).status is Completed ==> edited[i]
                    == items[i]
        },
    decreases operations.len(),
{
    if operations.len() > 0 {
        completed_steps_are_kept(items, operations.drop_last());
    }
}

/// Whether the operation asks for a change of the step at `index`.
pub open spec fn updates(operation: PlanOperation, index: int) -> bool {
    operation matches PlanOperation::Update { index: updated, .. } && updated == index
}

/// Law: a step that no operation names stays as it is and where it is.
pub proof fn unnamed_step_is_kept(
    items: Seq<PlanItem>,
    operations: Seq<PlanOperation>,
    index: int,
)
    requires
        0 <= index < items.len(),
        forall|j: int|
            0 <= j < operations.len() ==> match #[trigger] operations[j] {
                PlanOperation::Update { index: updated, .. } => updated != index,
                PlanOperation::Append { .. } => true,
            },
    ensures
        forall|j: int|
            0 <= j < operations.len() ==> !updates(#[trigger] operations[j], index),
        apply_operations(items, operations) matches Ok(edited) ==> index < edited.len()
            && edited[index] == items[index],
    decreases operations.len(),
{
    if operations.len() > 0 {
        let rest = operations.drop_last();
        assert forall|j: int| 0 <= j < rest.len() implies match #[trigger] rest[j] {
            PlanOperation::Update { index: updated, .. } => updated != index,
            PlanOperation::Append { .. } => true,
        } by {
            assert(rest[j] == operations[j]);
        }
        unnamed_step_is_kept(items, rest, index);
        assert(operations.last() == operations[operations.len() - 1]);
    }
}

/// How many of the operations add a step.
pub open spec fn appends(operations: Seq<PlanOperation>) -> nat
    decreases operations.len(),
{
    if operations.len() == 0 {
        0
    } else {
        appends(operations.drop_last()) + if operations.last() is Append {
            1nat
        } else {
            0nat
        }
    }
}

/// Law: an edit makes the plan longer by one step for each operation that adds one, and never
/// shorter.
pub proof fn edit_adds_appended_steps(items: Seq<PlanItem>, operations: Seq<PlanOperation>)
    ensures
        apply_operations(items, operations) matches Ok(edited) ==> edited.len() == items.len()
            + appends(operations),
        appends(operations) == operations.filter(
            |operation: PlanOperation| operation is Append,
        ).len(),
    decreases operations.len(),
{
    reveal(Seq::filter);
    if operations.len() > 0 {
        edit_adds_appended_steps(items, operations.drop_last());
    }
}

/// Law: operations in one edit act as the same operations in two edits, one after the other.
pub proof fn edits_compose(
    items: Seq<PlanItem>,
    first: Seq<PlanOperation>,
    second: Seq<PlanOperation>,
)
    ensures
        apply_operations(items, first + second) == match apply_operations(items, first) {
            Ok(edited) => apply_operations(edited, second),
            Err(rejection) => Err(rejection),
        },
    decreases second.len(),
{
    if second.len() == 0 {
        assert(first + second =~= first);
    } else {
        assert((first + second).drop_last() =~= first + second.drop_last());
        edits_compose(items, first, second.drop_last());
    }
}

/// Law: an edit is turned down for the first of its operations that cannot be applied, whatever
/// comes after that one.
pub proof fn first_rejection_counts(
    items: Seq<PlanItem>,
    accepted: Seq<PlanOperation>,
    rejected: PlanOperation,
    rest: Seq<PlanOperation>,
)
    requires
        apply_operations(items, accepted) is Ok,
        apply_operation(apply_operations(items, accepted)->Ok_0, rejected) is Err,
    ensures
        apply_operations(items, accepted.push(rejected) + rest) == apply_operation(
            apply_operations(items, accepted)->Ok_0,
            rejected,
        ),
{
    assert(accepted.push(rejected).drop_last() =~= accepted);
    edits_compose(items, accepted.push(rejected), rest);
}

/// Law: the model of a step, of a list of steps and of an operation holds what is written there,
/// each part in its place.
pub proof fn models_show_what_is_written(
    item: PlanItemArg,
    items: Seq<PlanItemArg>,
    operations: Seq<ExternalPlanUpdateOperation>,
)
    ensures
        item@.step == item.step@,
        item@.status == item.status,
        items_of(items).len() == items.len(),
        forall|i: int|
            0 <= i < items.len() ==> (#[trigger] items_of(items)[i]).step == items[i].step@
                && items_of(items)[i].status == items[i].status,
        operations_of(operations).len() == operations.len(),
        forall|i: int|
            0 <= i < operations.len() ==> match operations[i] {
                ExternalPlanUpdateOperation::Append {
                    step,
                    status,
                } => #[trigger] operations_of(operations)[i] == (PlanOperation::Append {
                    step: step@,
                    status,
                }),
                ExternalPlanUpdateOperation::Update {
                    index,
                    step,
                    status,
                } => operations_of(operations)[i] == (PlanOperation::Update {
                    index: index as nat,
                    step: match step {
                        Some(step) => Some(step@),
                        None => None,
                    },
                    status,
                }),
            },
{
}

/// Law: the model of a plan holds its explanation and its steps, and there is a model exactly if
/// there is a plan.
pub proof fn plan_models_show_what_is_written(plan: UpdatePlanArgs, text: Option<String>)
    ensures
        text_of(text) == match text {
            Some(text) => Some(text@),
            None => None,
        },
        plan@.explanation == match plan.explanation {
            Some(text) => Some(text@),
            None => None,
        },
        plan@.items.len() == plan.plan@.len(),
        forall|i: int|
            0 <= i < plan.plan@.len() ==> (#[trigger] plan@.items[i]).step == plan.plan@[i].step@
                && plan@.items[i].status == plan.plan@[i].status,
        optional_plan_of(Some(plan)) == Some(plan@),
        optional_plan_of(None) is None,
{
}

/// Law: the model of a transition holds each of its parts.
pub proof fn transition_models_show_what_is_written(transition: PlanLifecycleTransition)
    ensures
        transition@.created == transition.created,
        transition@.updated == transition.updated,
        transition@.completed == transition.completed,
        transition@.current_plan == transition.current_plan@,
        match transition.previous_plan {
            Some(items) => {
                &&& transition@.previous_plan matches Some(shown)
                &&& shown.len() == items@.len()
                &&& forall|i: int|
                    0 <= i < items@.len() ==> (#[trigger] shown[i]).step == items@[i].step@
                        && shown[i].status == items@[i].status
            },
            None => transition@.previous_plan is None,
        },
{
}

/// Law: steps count as completed as a whole exactly if there are any and each one is completed;
/// one that is pending or in progress is enough to keep them open.
pub proof fn an_open_step_keeps_a_plan_open(items: Seq<PlanItem>, index: int)
    requires
        0 <= index < items.len(),
    ensures
        items[index].status == StepStatus::Pending ==> !items_completed(items),
        items[index].status == StepStatus::InProgress ==> !items_completed(items),
        items_completed(items) ==> items[index].status == StepStatus::Completed,
        !items_completed(Seq::empty()),
        !items_completed(items) ==> exists|i: int|
            0 <= i < items.len() && (#[trigger] items[i]).status != StepStatus::Completed,
{
}

/// Law: two lists of steps put together are completed exactly if each of them is completed or
/// empty, and they are not both empty.
pub proof fn completion_of_joined_plans(first: Seq<PlanItem>, second: Seq<PlanItem>)
    ensures
        items_completed(first + second) <==> {
            &&& first.len() + second.len() > 0
            &&& first.len() == 0 || items_completed(first)
            &&& second.len() == 0 || items_completed(second)
        },
{
    let both = first + second;
    assert(forall|i: int| 0 <= i < first.len() ==> both[i] == #[trigger] first[i]);
    assert(forall|i: int|
        0 <= i < second.len() ==> both[first.len() + i] == #[trigger] second[i]);
    if items_completed(both) {
        assert forall|i: int| 0 <= i < second.len() implies (
        #[trigger] second[i]).status is Completed by {
            assert(both[first.len() + i].status is Completed);
        }
        assert forall|i: int| 0 <= i < first.len() implies (#[trigger] first[i]).status is Completed
            by {
            assert(both[i].status is Completed);
        }
    }
}

/// Law: an edit that adds one step leaves every step that was there as it was, and puts the new
/// one behind them, with its text, and pending unless another status is given. It is never turned
/// down.
pub proof fn one_append_adds_one_step(
    current: Option<Plan>,
    explanation: Option<Seq<char>>,
    step: Seq<char>,
    status: Option<StepStatus>,
)
    ensures
        ({
            let before: Seq<PlanItem> = match current {
                Some(plan) => plan.items,
                None => Seq::empty(),
            };
            let edit = edited_plan(
                current,
                explanation,
                seq![PlanOperation::Append { step, status }],
            );
            &&& edit matches Ok(plan)
            &&& plan.items.len() == before.len() + 1
            &&& forall|i: int| 0 <= i < before.len() ==> #[trigger] plan.items[i] == before[i]
            &&& plan.items[before.len() as int].step == step
            &&& status is None ==> plan.items[before.len() as int].status == StepStatus::Pending
            &&& status matches Some(given) ==> plan.items[before.len() as int].status == given
        }),
{
    let operations = seq![PlanOperation::Append { step, status }];
    assert(operations.drop_last() =~= Seq::empty());
    reveal_with_fuel(apply_operations, 2);
}

/// Law: an edit that updates one step is turned down if there is no such step or it is completed,
/// and for nothing else. It leaves every other step as it was, and of the one that it names what
/// it does not give.
pub proof fn one_update_changes_one_open_step(
    current: Option<Plan>,
    explanation: Option<Seq<char>>,
    index: nat,
    step: Option<Seq<char>>,
    status: Option<StepStatus>,
)
    ensures
        ({
            let before: Seq<PlanItem> = match current {
                Some(plan) => plan.items,
                None => Seq::empty(),
            };
            let edit = edited_plan(
                current,
                explanation,
                seq![PlanOperation::Update { index, step, status }],
            );
            if index >= before.len() {
                edit == Err::<Plan, PlanRejection>(PlanRejection::OutOfRange { index })
            } else if before[index as int].status == StepStatus::Completed {
                edit == Err::<Plan, PlanRejection>(PlanRejection::AlreadyCompleted { index })
            } else {
                &&& edit matches Ok(plan)
                &&& plan.items.len() == before.len()
                &&& forall|i: int|
                    0 <= i < before.len() && i != index ==> #[trigger] plan.items[i] == before[i]
                &&& step matches Some(given) ==> plan.items[index as int].step == given
                &&& step is None ==> plan.items[index as int].step == before[index as int].step
                &&& status matches Some(given) ==> plan.items[index as int].status == given
                &&& status is None ==> plan.items[index as int].status
                    == before[index as int].status
            }
        }),
{
    let operations = seq![PlanOperation::Update { index, step, status }];
    assert(operations.drop_last() =~= Seq::empty());
    reveal_with_fuel(apply_operations, 2);
}

/// Law: an edit keeps the explanation of the plan unless it gives one, whatever its operations
/// are.
pub proof fn explanation_is_kept_unless_given(
    current: Option<Plan>,
    explanation: Option<Seq<char>>,
    operations: Seq<PlanOperation>,
)
    ensures
        edited_plan(current, explanation, operations) matches Ok(plan) ==> {
            &&& explanation is Some ==> plan.explanation == explanation
            &&& explanation is None && current is Some ==> plan.explanation
                == current->0.explanation
            &&& explanation is None && current is None ==> plan.explanation is None
        },
{
}

/// Law: an edit without operations is turned down for that, and no other edit is.
pub proof fn only_an_empty_edit_lacks_operations(
    current: Option<Plan>,
    explanation: Option<Seq<char>>,
    operations: Seq<PlanOperation>,
)
    ensures
        edited_plan(current, explanation, operations) == Err::<Plan, PlanRejection>(
            PlanRejection::NoOperations,
        ) <==> operations.len() == 0,
    decreases operations.len(),
{
    lemma_operations_are_not_missing(base_plan(current).items, operations);
}

proof fn lemma_operations_are_not_missing(items: Seq<PlanItem>, operations: Seq<PlanOperation>)
    ensures
        apply_operations(items, operations) matches Err(rejection) ==> !(
        rejection is NoOperations),
    decreases operations.len(),
{
    if operations.len() > 0 {
        lemma_operations_are_not_missing(items, operations.drop_last());
    }
}

/// Law: an edit acts as two edits one after the other, its operations divided between them and its
/// explanation given to the first; if either part is turned down, so is the whole.
pub proof fn an_edit_is_its_parts_in_turn(
    current: Option<Plan>,
    explanation: Option<Seq<char>>,
    first: Seq<PlanOperation>,
    second: Seq<PlanOperation>,
)
    requires
        first.len() > 0,
        second.len() > 0,
    ensures
        edited_plan(current, explanation, first + second) == match edited_plan(
            current,
            explanation,
            first,
        ) {
            Ok(plan) => edited_plan(Some(plan), None, second),
            Err(rejection) => Err(rejection),
        },
{
    edits_compose(base_plan(current).items, first, second);
}

/// Law: no operations leave the steps as they are, and one operation acts on its own.
pub proof fn operations_act_one_by_one(items: Seq<PlanItem>, operation: PlanOperation)
    ensures
        apply_operations(items, Seq::empty()) == Ok::<Seq<PlanItem>, PlanRejection>(items),
        apply_operations(items, seq![operation]) == apply_operation(items, operation),
{
    assert(seq![operation].drop_last() =~= Seq::empty());
    reveal_with_fuel(apply_operations, 2);
}

/// Law: each rejection has a message of its own, which names the step, if there is one, by its
/// index.
pub proof fn rejections_name_the_step(index: nat)
    ensures
        PlanRejection::NoOperations.message() == "operations must not be empty"@,
        (PlanRejection::OutOfRange { index }).message() == "plan item index "@ + decimal(index)
            + " is out of range"@,
        (PlanRejection::AlreadyCompleted { index }).message() == "plan item index "@ + decimal(index)
            + " is already completed"@,
{
}

/// Law: every change that is not turned down is reported as an update; as a creation exactly if
/// there was no plan before; as the completion exactly if every step is completed, of which there
/// is at least one, and that was not reported before. The report holds the new plan and the steps
/// of the one before.
pub proof fn every_change_is_reported_as_an_update(progress: PlanProgress, plan: Plan)
    ensures
        progress.transition(plan).updated,
        progress.transition(plan).created <==> progress.plan is None,
        progress.transition(plan).completed <==> {
            &&& plan.items.len() > 0
            &&& forall|i: int|
                0 <= i < plan.items.len() ==> (#[trigger] plan.items[i]).status
                    == StepStatus::Completed
            &&& !progress.completion_reported
        },
        progress.transition(plan).current_plan == plan,
        match progress.plan {
            Some(previous) => progress.transition(plan).previous_plan == Some(previous.items),
            None => progress.transition(plan).previous_plan is None,
        },
{
}

/// Law: after a change the turn has the new plan, and has reported the completion exactly if it
/// had before or did so with this change.
pub proof fn progress_keeps_the_latest_plan(progress: PlanProgress, plan: Plan)
    ensures
        progress.after(plan).plan == Some(plan),
        progress.after(plan).completion_reported <==> progress.completion_reported
            || progress.transition(plan).completed,
        progress.after(plan).completion_reported <==> progress.completion_reported || (
        plan.items.len() > 0 && forall|i: int|
            0 <= i < plan.items.len() ==> (#[trigger] plan.items[i]).status
                == StepStatus::Completed),
{
}

/// Law: a series of changes is made one by one: a replacement always counts, an edit counts if it
/// is not turned down, and each change that completes the plan is counted once.
pub proof fn changes_are_made_one_by_one(
    start: PlanProgress,
    changes: Seq<PlanChange>,
    plan: Plan,
    explanation: Option<Seq<char>>,
    operations: Seq<PlanOperation>,
)
    ensures
        progress_after(start, Seq::empty()) == start,
        completions(start, Seq::empty()) == 0,
        ({
            let before = progress_after(start, changes);
            let replaced = changes.push(PlanChange::Snapshot { plan });
            let edited = changes.push(PlanChange::Edit { explanation, operations });
            &&& progress_after(start, replaced) == before.after(plan)
            &&& completions(start, replaced) == completions(start, changes) + if before.transition(
                plan,
            ).completed {
                1nat
            } else {
                0nat
            }
            &&& match edited_plan(before.plan, explanation, operations) {
                Ok(next) => {
                    &&& progress_after(start, edited) == before.after(next)
                    &&& completions(start, edited) == completions(start, changes)
                        + if before.transition(next).completed {
                        1nat
                    } else {
                        0nat
                    }
                },
                Err(_) => {
                    &&& progress_after(start, edited) == before
                    &&& completions(start, edited) == completions(start, changes)
                },
            }
        }),
{
    assert(changes.push(PlanChange::Snapshot { plan }).drop_last() =~= changes);
    assert(changes.push(PlanChange::Edit { explanation, operations }).drop_last() =~= changes);
}

} // verus!
