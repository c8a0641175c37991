//! What the lifecycle hooks have in common.

use crate::plan::text_of;
use crate::text::signed_decimal;
use crate::text::signed_decimal_text;
use crate::text::trimmed;
use crate::text::trimmed_non_empty;
use vstd::prelude::*;
use vstd::string::*;

verus! {

/// What a hook is run for.
#[derive(Clone, Copy, Debug, PartialEq, Eq, Structural)]
pub enum HookEventName {
    PlanCreated,
    PlanUpdated,
    PlanCompleted,
    TaskCreated,
    TaskCompleted,
    /// An event that belongs neither to plans nor to tasks, by its number.
    Other(u32),
}

/// How the run of a hook ended.
#[derive(Clone, Copy, Debug, PartialEq, Eq, Structural)]
pub enum HookRunStatus {
    Completed,
    Failed,
}

/// What an entry in the output of a hook is.
#[derive(Clone, Copy, Debug, PartialEq, Eq, Structural)]
pub enum HookOutputEntryKind {
    Error,
}

/// An entry in the output of a hook.
#[derive(Debug, PartialEq, Eq)]
pub struct HookOutputEntry {
    pub kind: HookOutputEntryKind,
    pub text: String,
}

/// The directory that commands are run in, and the text that it is displayed as. The text alone
/// may not lead back to the directory.
#[derive(Debug, Clone)]
pub struct WorkingDirectory<P> {
    pub path: P,
    pub displayed: String,
}

/// How the command of a hook ended; `D` is what else there is to say of the run.
#[derive(Debug)]
pub struct CommandRunResult<D> {
    /// Why the command could not be run to its end.
    pub error: Option<String>,
    /// The exit code, if the process ended with one.
    pub exit_code: Option<i32>,
    /// What the command wrote to its standard error.
    pub stderr: String,
    /// What else there is to say of the run.
    pub details: D,
}

/// The report on a hook that has run; `S` is a summary of the run.
#[derive(Debug)]
pub struct HookCompletedEvent<S> {
    pub turn_id: Option<String>,
    pub run: S,
}

/// What the run of a handler came to, with the data that was read from its output.
#[derive(Debug)]
pub struct ParsedHandler<D, S> {
    pub completed: HookCompletedEvent<S>,
    pub data: D,
    pub completion_order: usize,
}

/// How the run of the hooks for a request begins: `H` is a handler, `I` what the handlers are
/// told, and `O` the outcome.
#[derive(Debug)]
pub enum RunStart<H, I, O> {
    /// There is nothing to run.
    Finished { outcome: O },
    /// `input` has to be serialised for the handlers in `matched`.
    Serialize { matched: Vec<H>, input: I },
}

/// How the run of the hooks for a request goes on once their input is serialised.
#[derive(Debug)]
pub enum RunDispatch<H, P> {
    /// The handlers have to be run with `input_json`, in the directory `cwd`.
    Execute { handlers: Vec<H>, input_json: String, cwd: P, turn_id: Option<String> },
    /// The handlers have to be reported as failed, with `message`.
    ReportFailure { handlers: Vec<H>, turn_id: Option<String>, message: String },
}

impl<D> CommandRunResult<D> {
    /// Why the run counts as failed, if it does. An error comes before the exit code, and what
    /// the command had to say comes before the bare code.
    pub open spec fn failure(self) -> Option<Seq<char>> {
        match (text_of(self.error), self.exit_code) {
            (Some(error), _) => Some(error),
            (None, Some(code)) => if code == 0 {
                None
            } else if trimmed(self.stderr@).len() > 0 {
                Some(trimmed(self.stderr@))
            } else {
                Some("hook exited with code "@ + signed_decimal(code as int))
            },
            (None, None) => Some("hook process terminated without an exit code"@),
        }
    }

    /// Whether `status` and `entries` say how the run ended: with nothing more to say, or with
    /// one entry that tells why it failed.
    pub open spec fn is_judged(self, status: HookRunStatus, entries: Seq<HookOutputEntry>) -> bool {
        match self.failure() {
            None => status is Completed && entries.len() == 0,
            Some(text) => status is Failed && entries.len() == 1 && entries[0].kind is Error
                && entries[0].text@ == text,
        }
    }

    /// Says how the run ended.
    pub fn judge(&self) -> (r: (HookRunStatus, Vec<HookOutputEntry>))
        ensures
            self.is_judged(r.0, r.1@),
            r.0 == HookRunStatus::Completed <==> self.error is None && self.exit_code
                == Some(0i32),
            r.0 == HookRunStatus::Failed <==> !(self.error is None && self.exit_code
                == Some(0i32)),
            r.1@.len() == if self.error is None && self.exit_code == Some(0i32) {
                0nat
            } else {
                1nat
            },
            r.1@.len() == 1 ==> r.1@[0].kind == HookOutputEntryKind::Error,
            self.error matches Some(error) ==> r.1@[0].text@ == error@,
            self.error is None && self.exit_code is None ==> r.1@[0].text@
                == "hook process terminated without an exit code"@,
            self.error is None ==> (self.exit_code matches Some(code) ==> code != 0
                ==> r.1@[0].text@ == if trimmed(self.stderr@).len() > 0 {
                trimmed(self.stderr@)
            } else {
                "hook exited with code "@ + signed_decimal(code as int)
            }),
    {
        let text = match &self.error {
            Some(error) => error.clone(),
            None => match self.exit_code {
                Some(0) => {
                    return (HookRunStatus::Completed, Vec::new());
                },
                Some(code) => match trimmed_non_empty(self.stderr.as_str()) {
                    Some(said) => said,
                    None => "hook exited with code ".to_owned().concat(
                        signed_decimal_text(code).as_str(),
                    ),
                },
                None => "hook process terminated without an exit code".to_owned(),
            },
        };
        let mut entries: Vec<HookOutputEntry> = Vec::new();
        entries.push(HookOutputEntry { kind: HookOutputEntryKind::Error, text });
        (HookRunStatus::Failed, entries)
    }
}

/// Makes the report on a handler that has run. `completed_summary` is handed the handler, its
/// result, and what to say of it.
pub fn parse_completed<
    H,
    D,
    S,
    F: FnOnce(&H, &CommandRunResult<D>, HookRunStatus, Vec<HookOutputEntry>) -> S,
>(
    handler: &H,
    run_result: CommandRunResult<D>,
    turn_id: Option<String>,
    completed_summary: F,
) -> (r: ParsedHandler<(), S>)
    requires
        forall|status: HookRunStatus, entries: Vec<HookOutputEntry>|
            run_result.is_judged(status, entries@) ==> #[trigger] call_requires(
                completed_summary,
                (handler, &run_result, status, entries),
            ),
    ensures
        r.completed.turn_id == turn_id,
        exists|status: HookRunStatus, entries: Vec<HookOutputEntry>|
            run_result.is_judged(status, entries@) && #[trigger] call_ensures(
                completed_summary,
                (handler, &run_result, status, entries),
                r.completed.run,
            ),
        r.completion_order == 0,
{
    let (status, entries) = run_result.judge();
    let run = completed_summary(handler, &run_result, status, entries);
    let r = ParsedHandler {
        completed: HookCompletedEvent { turn_id, run },
        data: (),
        completion_order: 0,
    };
    assert(call_ensures(
        completed_summary,
        (handler, &run_result, status, entries),
        r.completed.run,
    ));
    r
}

/// Whether `select_handlers` can be asked for the handlers of an event with `matcher_input`.
pub open spec fn can_select<H, F: FnOnce(&[H], HookEventName, Option<&str>) -> Vec<H>>(
    select_handlers: F,
    handlers: &[H],
    event_name: HookEventName,
    matcher_input: Seq<char>,
) -> bool {
    forall|input: &str|
        input@ == matcher_input ==> #[trigger] call_requires(
            select_handlers,
            (handlers, event_name, Some(input)),
        )
}

/// Whether `matched` is what `select_handlers` answers when it is asked for the handlers of an
/// event with `matcher_input`.
pub open spec fn selects<H, F: FnOnce(&[H], HookEventName, Option<&str>) -> Vec<H>>(
    select_handlers: F,
    handlers: &[H],
    event_name: HookEventName,
    matcher_input: Seq<char>,
    matched: Vec<H>,
) -> bool {
    exists|input: &str|
        input@ == matcher_input && #[trigger] call_ensures(
            select_handlers,
            (handlers, event_name, Some(input)),
            matched,
        )
}

/// Whether `summaries` holds what `running_summary` makes of each handler in `matched`, in the
/// same order.
pub open spec fn summarizes<H, S, F: Fn(&H) -> S>(
    running_summary: F,
    matched: Seq<H>,
    summaries: Seq<S>,
) -> bool {
    &&& summaries.len() == matched.len()
    &&& forall|i: int|
        0 <= i < matched.len() ==> call_ensures(
            running_summary,
            (&matched[i],),
            #[trigger] summaries[i],
        )
}

/// The summaries of the handlers that an event would run.
pub fn preview_event<
    H,
    S,
    F: FnOnce(&[H], HookEventName, Option<&str>) -> Vec<H>,
    G: Fn(&H) -> S,
>(
    handlers: &[H],
    event_name: HookEventName,
    matcher_input: &str,
    select_handlers: F,
    running_summary: G,
) -> (r: Vec<S>)
    requires
        can_select(select_handlers, handlers, event_name, matcher_input@),
        forall|matched: Vec<H>, i: int|
            selects(select_handlers, handlers, event_name, matcher_input@, matched) && 0 <= i
                < matched@.len() ==> #[trigger] call_requires(running_summary, (&matched@[i],)),
    ensures
        exists|matched: Vec<H>|
            (#[trigger] selects(select_handlers, handlers, event_name, matcher_input@, matched))
                && summarizes(running_summary, matched@, r@),
        exists|matched: Vec<H>, input: &str|
            {
                &&& input@ == matcher_input@
                &&& #[trigger] call_ensures(
                    select_handlers,
                    (handlers, event_name, Some(input)),
                    matched,
                )
                &&& r@.len() == matched@.len()
                &&& forall|i: int|
                    0 <= i < matched@.len() ==> call_ensures(
                        running_summary,
                        (&matched@[i],),
                        #[trigger] r@[i],
                    )
            },
{
    let matched = select_handlers(handlers, event_name, Some(matcher_input));
    assert(selects(select_handlers, handlers, event_name, matcher_input@, matched));
    let mut summaries: Vec<S> = Vec::new();
    let mut i: usize = 0;
    while i < matched.len()
        invariant
            i <= matched@.len(),
            summaries@.len() == i,
            selects(select_handlers, handlers, event_name, matcher_input@, matched),
            call_ensures(select_handlers, (handlers, event_name, Some(matcher_input)), matched),
            forall|matched: Vec<H>, i: int|
                selects(select_handlers, handlers, event_name, matcher_input@, matched) && 0 <= i
                    < matched@.len() ==> #[trigger] call_requires(running_summary, (&matched@[i],)),
            forall|j: int|
                0 <= j < i ==> call_ensures(
                    running_summary,
                    (&matched@[j],),
                    #[trigger] summaries@[j],
                ),
        decreases matched@.len() - i,
    {
        summaries.push(running_summary(&matched[i]));
        i = i + 1;
    }
    summaries
}

/// Says how a run goes on. `failed_to` is what the message on a failure starts with.
pub(crate) fn dispatch_event<H, P>(
    matched: Vec<H>,
    turn_id: String,
    cwd: P,
    input_json: Result<String, String>,
    failed_to: &str,
) -> (r: RunDispatch<H, P>)
    ensures
        match input_json {
            Ok(input_json) => r == (RunDispatch::Execute {
                handlers: matched,
                input_json,
                cwd,
                turn_id: Some(turn_id),
            }),
            Err(error) => r matches RunDispatch::ReportFailure {
                handlers,
                turn_id: reported,
                message,
            } && handlers == matched && reported == Some(turn_id) && message@ == failed_to@
                + error@,
        },
{
    match input_json {
        Ok(input_json) => RunDispatch::Execute {
            handlers: matched,
            input_json,
            cwd,
            turn_id: Some(turn_id),
        },
        Err(error) => RunDispatch::ReportFailure {
            handlers: matched,
            turn_id: Some(turn_id),
            message: failed_to.to_owned().concat(error.as_str()),
        },
    }
}

/// The reports of the handlers that have run, in the same order.
pub open spec fn reports_of<S>(results: Seq<ParsedHandler<(), S>>) -> Seq<HookCompletedEvent<S>> {
    results.map_values(|result: ParsedHandler<(), S>| result.completed)
}

/// Collects the reports of the handlers that have run, in the same order.
pub(crate) fn collect_reports<S>(results: Vec<ParsedHandler<(), S>>) -> (r: Vec<
    HookCompletedEvent<S>,
>)
    ensures
        r@ == reports_of(results@),
        r@.len() == results@.len(),
        forall|i: int| 0 <= i < results@.len() ==> #[trigger] r@[i] == results@[i].completed,
{
    let mut reports: Vec<HookCompletedEvent<S>> = Vec::new();
    for result in it: results
        invariant
            it.seq() == results@,
            reports@ == reports_of(results@).take(it.index()),
    {
        reports.push(result.completed);
        assert(reports@ =~= reports_of(results@).take(it.index() + 1));
    }
    assert(reports_of(results@).take(results@.len() as int) =~= reports_of(results@));
    reports
}

/// Law: a run counts as completed exactly if there was no error and the exit code is zero, and
/// then there is nothing more to say; otherwise it counts as failed, with one entry.
pub proof fn only_a_clean_exit_completes<D>(
    run_result: CommandRunResult<D>,
    status: HookRunStatus,
    entries: Seq<HookOutputEntry>,
)
    requires
        run_result.is_judged(status, entries),
    ensures
        status is Completed <==> run_result.error is None && run_result.exit_code == Some(0i32),
        status is Completed <==> entries.len() == 0,
        status is Failed <==> entries.len() == 1,
{
}

/// Law: how a run is judged: an error is reported as it is, whatever else there is; a code other
/// than zero by what the command wrote to its standard error, or, if that is blank, by the code;
/// and a missing code as such.
pub proof fn failed_runs_say_why<D>(
    run_result: CommandRunResult<D>,
    status: HookRunStatus,
    entries: Seq<HookOutputEntry>,
)
    requires
        run_result.is_judged(status, entries),
    ensures
        run_result.error matches Some(error) ==> {
            &&& status == HookRunStatus::Failed
            &&& entries.len() == 1
            &&& entries[0].kind == HookOutputEntryKind::Error
            &&& entries[0].text@ == error@
        },
        run_result.error is None && run_result.exit_code == Some(0i32) ==> {
            &&& status == HookRunStatus::Completed
            &&& entries.len() == 0
        },
        run_result.error is None && run_result.exit_code is None ==> {
            &&& status == HookRunStatus::Failed
            &&& entries.len() == 1
            &&& entries[0].kind == HookOutputEntryKind::Error
            &&& entries[0].text@ == "hook process terminated without an exit code"@
        },
        run_result.error is None ==> (run_result.exit_code matches Some(code) ==> code != 0 ==> {
            &&& status == HookRunStatus::Failed
            &&& entries.len() == 1
            &&& entries[0].kind == HookOutputEntryKind::Error
            &&& entries[0].text@ == if trimmed(run_result.stderr@).len() > 0 {
                trimmed(run_result.stderr@)
            } else {
                "hook exited with code "@ + signed_decimal(code as int)
            }
        }),
{
}

/// Law: handlers are selected by asking for those of the event with the very text to match, and
/// they are summarised one by one, in order.
pub proof fn handlers_are_asked_for_and_summarised<
    H,
    S,
    F: FnOnce(&[H], HookEventName, Option<&str>) -> Vec<H>,
    G: Fn(&H) -> S,
>(
    select_handlers: F,
    running_summary: G,
    handlers: &[H],
    event_name: HookEventName,
    matcher_input: Seq<char>,
    matched: Vec<H>,
    summaries: Seq<S>,
)
    requires
        selects(select_handlers, handlers, event_name, matcher_input, matched),
        summarizes(running_summary, matched@, summaries),
    ensures
        exists|input: &str|
            input@ == matcher_input && #[trigger] call_ensures(
                select_handlers,
                (handlers, event_name, Some(input)),
                matched,
            ),
        summaries.len() == matched@.len(),
        forall|i: int|
            0 <= i < matched@.len() ==> call_ensures(
                running_summary,
                (&matched@[i],),
                #[trigger] summaries[i],
            ),
{
}

/// Law: each handler that has run is reported once, in its place, with the very event that was
/// made for it, the turn that it belongs to included.
pub proof fn each_result_is_reported_in_its_place<S>(results: Seq<ParsedHandler<(), S>>)
    ensures
        reports_of(results).len() == results.len(),
        forall|i: int|
            0 <= i < results.len() ==> (#[trigger] reports_of(results)[i]).turn_id
                == results[i].completed.turn_id && reports_of(results)[i].run
                == results[i].completed.run,
{
}

} // verus!
