//! How an event is presented: its notification type and whether it asks the
//! reader to act.

use vstd::prelude::*;
use crate::text::str_eq;

verus! {

/// The notification type of an event name.
pub open spec fn event_type_of(event: Seq<char>) -> Seq<char> {
    if event == "task.completed"@ || event == "output.generated"@ || event == "input.approved"@ {
        "success"@
    } else if event == "task.failed"@ || event == "task.timeout"@ || event == "task.error"@
        || event == "task.terminated"@ || event == "output.failed"@ {
        "urgent"@
    } else if event == "task.retry"@ || event == "task.cancelled"@ || event == "input.required"@
        || event == "input.rejected"@ {
        "warning"@
    } else {
        "info"@
    }
}

/// Whether an event, by default, asks the reader to act.
pub open spec fn actionable_by_default(event: Seq<char>) -> bool {
    ||| event == "task.error"@
    ||| event == "task.failed"@
    ||| event == "task.timeout"@
    ||| event == "task.retry"@
    ||| event == "task.loop"@
    ||| event == "output.failed"@
    ||| event == "input.required"@
    ||| event == "input.rejected"@
}

/// Whether `t` names one of the four notification types.
pub open spec fn is_known_type(t: Seq<char>) -> bool {
    t == "info"@ || t == "success"@ || t == "warning"@ || t == "urgent"@
}

/// The notification type of `event`: `success`, `urgent`, `warning` or `info`.
pub fn get_event_type(event: &str) -> (r: &'static str)
    ensures
        r@ == event_type_of(event@),
{
    if str_eq(event, "task.completed") || str_eq(event, "output.generated") || str_eq(
        event,
        "input.approved",
    ) {
        "success"
    } else if str_eq(event, "task.failed") || str_eq(event, "task.timeout") || str_eq(
        event,
        "task.error",
    ) || str_eq(event, "task.terminated") || str_eq(event, "output.failed") {
        "urgent"
    } else if str_eq(event, "task.retry") || str_eq(event, "task.cancelled") || str_eq(
        event,
        "input.required",
    ) || str_eq(event, "input.rejected") {
        "warning"
    } else {
        "info"
    }
}

/// Whether `event` asks the reader to act unless the sender says otherwise.
pub fn is_actionable_default(event: &str) -> (r: bool)
    ensures
        r == actionable_by_default(event@),
{
    str_eq(event, "task.error") || str_eq(event, "task.failed") || str_eq(event, "task.timeout")
        || str_eq(event, "task.retry") || str_eq(event, "task.loop") || str_eq(
        event,
        "output.failed",
    ) || str_eq(event, "input.required") || str_eq(event, "input.rejected")
}

/// Whether `t` is one of `info`, `success`, `warning`, `urgent`.
pub fn is_event_type_name(t: &str) -> (r: bool)
    ensures
        r == is_known_type(t@),
{
    str_eq(t, "info") || str_eq(t, "success") || str_eq(t, "warning") || str_eq(t, "urgent")
}

/// A step of a run's lifecycle.
pub enum RunStep {
    Queue,
    Start,
    Progress,
    LoopStep,
    Retry,
    Pause,
    Resume,
    Wait,
    Stop,
    Error,
    Complete,
    Fail,
    Timeout,
    Cancel,
    Terminate,
    InputRequired,
    InputApproved,
    InputRejected,
    OutputGenerated,
    OutputFailed,
}

/// The event a lifecycle step sends.
pub struct StepEvent {
    /// The event name.
    pub event: &'static str,
    /// The message sent, when the step takes none from its caller.
    pub fixed_message: Option<&'static str>,
    /// Whether the run ends with it (its state and pointer are removed).
    pub ends_run: bool,
}

/// The event name, fixed message and end of run of each lifecycle step.
pub open spec fn step_event_of(step: RunStep) -> (Seq<char>, Option<Seq<char>>, bool) {
    match step {
        RunStep::Queue => ("task.queued"@, Some("Task queued"@), false),
        RunStep::Start => ("task.started"@, Some("Task started"@), false),
        RunStep::Progress => ("task.progress"@, None, false),
        RunStep::LoopStep => ("task.loop"@, None, false),
        RunStep::Retry => ("task.retry"@, Some("Retrying task"@), false),
        RunStep::Pause => ("task.paused"@, None, false),
        RunStep::Resume => ("task.resumed"@, None, false),
        RunStep::Wait => ("task.waiting"@, None, false),
        RunStep::Stop => ("task.stopped"@, Some("Task stopped"@), false),
        RunStep::Error => ("task.error"@, None, false),
        RunStep::Complete => ("task.completed"@, None, true),
        RunStep::Fail => ("task.failed"@, None, true),
        RunStep::Timeout => ("task.timeout"@, None, true),
        RunStep::Cancel => ("task.cancelled"@, None, true),
        RunStep::Terminate => ("task.terminated"@, None, true),
        RunStep::InputRequired => ("input.required"@, None, false),
        RunStep::InputApproved => ("input.approved"@, None, false),
        RunStep::InputRejected => ("input.rejected"@, None, false),
        RunStep::OutputGenerated => ("output.generated"@, None, false),
        RunStep::OutputFailed => ("output.failed"@, None, false),
    }
}

/// The event a lifecycle step sends (see [`step_event_of`]).
pub fn step_event(step: RunStep) -> (r: StepEvent)
    ensures
        step_event_of(step) == (
            r.event@,
            match r.fixed_message {
                Some(m) => Some(m@),
                None => None,
            },
            r.ends_run,
        ),
{
    match step {
        RunStep::Queue => StepEvent { event: "task.queued", fixed_message: Some("Task queued"), ends_run: false },
        RunStep::Start => StepEvent { event: "task.started", fixed_message: Some("Task started"), ends_run: false },
        RunStep::Progress => StepEvent { event: "task.progress", fixed_message: None, ends_run: false },
        RunStep::LoopStep => StepEvent { event: "task.loop", fixed_message: None, ends_run: false },
        RunStep::Retry => StepEvent { event: "task.retry", fixed_message: Some("Retrying task"), ends_run: false },
        RunStep::Pause => StepEvent { event: "task.paused", fixed_message: None, ends_run: false },
        RunStep::Resume => StepEvent { event: "task.resumed", fixed_message: None, ends_run: false },
        RunStep::Wait => StepEvent { event: "task.waiting", fixed_message: None, ends_run: false },
        RunStep::Stop => StepEvent { event: "task.stopped", fixed_message: Some("Task stopped"), ends_run: false },
        RunStep::Error => StepEvent { event: "task.error", fixed_message: None, ends_run: false },
        RunStep::Complete => StepEvent { event: "task.completed", fixed_message: None, ends_run: true },
        RunStep::Fail => StepEvent { event: "task.failed", fixed_message: None, ends_run: true },
        RunStep::Timeout => StepEvent { event: "task.timeout", fixed_message: None, ends_run: true },
        RunStep::Cancel => StepEvent { event: "task.cancelled", fixed_message: None, ends_run: true },
        RunStep::Terminate => StepEvent { event: "task.terminated", fixed_message: None, ends_run: true },
        RunStep::InputRequired => StepEvent { event: "input.required", fixed_message: None, ends_run: false },
        RunStep::InputApproved => StepEvent { event: "input.approved", fixed_message: None, ends_run: false },
        RunStep::InputRejected => StepEvent { event: "input.rejected", fixed_message: None, ends_run: false },
        RunStep::OutputGenerated => StepEvent { event: "output.generated", fixed_message: None, ends_run: false },
        RunStep::OutputFailed => StepEvent { event: "output.failed", fixed_message: None, ends_run: false },
    }
}

// ── Laws ─────────────────────────────────────────────────────────────────────

/// The event names of the lifecycle steps, told apart by length, first letter
/// and ninth letter.
proof fn lemma_step_names()
    ensures
        "task.queued"@.len() == 11 && "task.queued"@[0] == 't' && "task.queued"@[8] == 'u',
        "task.started"@.len() == 12 && "task.started"@[0] == 't' && "task.started"@[8] == 'r',
        "task.progress"@.len() == 13 && "task.progress"@[0] == 't' && "task.progress"@[8] == 'g',
        "task.loop"@.len() == 9 && "task.loop"@[0] == 't' && "task.loop"@[8] == 'p',
        "task.retry"@.len() == 10 && "task.retry"@[0] == 't' && "task.retry"@[8] == 'r',
        "task.paused"@.len() == 11 && "task.paused"@[0] == 't' && "task.paused"@[8] == 's',
        "task.resumed"@.len() == 12 && "task.resumed"@[0] == 't' && "task.resumed"@[8] == 'u',
        "task.waiting"@.len() == 12 && "task.waiting"@[0] == 't' && "task.waiting"@[8] == 't',
        "task.stopped"@.len() == 12 && "task.stopped"@[0] == 't' && "task.stopped"@[8] == 'p',
        "task.error"@.len() == 10 && "task.error"@[0] == 't' && "task.error"@[8] == 'o',
        "task.completed"@.len() == 14 && "task.completed"@[0] == 't' && "task.completed"@[8] == 'p',
        "task.failed"@.len() == 11 && "task.failed"@[0] == 't' && "task.failed"@[8] == 'l',
        "task.timeout"@.len() == 12 && "task.timeout"@[0] == 't' && "task.timeout"@[8] == 'e',
        "task.cancelled"@.len() == 14 && "task.cancelled"@[0] == 't' && "task.cancelled"@[8] == 'c',
        "task.terminated"@.len() == 15 && "task.terminated"@[0] == 't' && "task.terminated"@[8] == 'm',
        "input.required"@.len() == 14 && "input.required"@[0] == 'i' && "input.required"@[8] == 'q',
        "input.approved"@.len() == 14 && "input.approved"@[0] == 'i' && "input.approved"@[8] == 'p',
        "input.rejected"@.len() == 14 && "input.rejected"@[0] == 'i' && "input.rejected"@[8] == 'j',
        "output.generated"@.len() == 16 && "output.generated"@[0] == 'o' && "output.generated"@[8] == 'e',
        "output.failed"@.len() == 13 && "output.failed"@[0] == 'o' && "output.failed"@[8] == 'a',
{
    reveal_strlit("task.queued");
    reveal_strlit("task.started");
    reveal_strlit("task.progress");
    reveal_strlit("task.loop");
    reveal_strlit("task.retry");
    reveal_strlit("task.paused");
    reveal_strlit("task.resumed");
    reveal_strlit("task.waiting");
    reveal_strlit("task.stopped");
    reveal_strlit("task.error");
    reveal_strlit("task.completed");
    reveal_strlit("task.failed");
    reveal_strlit("task.timeout");
    reveal_strlit("task.cancelled");
    reveal_strlit("task.terminated");
    reveal_strlit("input.required");
    reveal_strlit("input.approved");
    reveal_strlit("input.rejected");
    reveal_strlit("output.generated");
    reveal_strlit("output.failed");
}

/// Different lifecycle steps send different events: the event names a step.
pub proof fn law_step_events_distinct(a: RunStep, b: RunStep)
    requires
        a != b,
    ensures
        step_event_of(a).0 != step_event_of(b).0,
{
    lemma_step_names();
}

/// The notification type of each step's event: a completion, an approved
/// input and a generated output succeed; a failure, a timeout, an error, a
/// termination and a failed output are urgent; a retry, a cancellation and an
/// input required or rejected are warnings; the other steps are informational.
pub proof fn law_step_event_types(step: RunStep)
    ensures
        event_type_of(step_event_of(step).0) == match step {
            RunStep::Complete | RunStep::InputApproved | RunStep::OutputGenerated => "success"@,
            RunStep::Fail | RunStep::Timeout | RunStep::Error | RunStep::Terminate
            | RunStep::OutputFailed => "urgent"@,
            RunStep::Retry | RunStep::Cancel | RunStep::InputRequired | RunStep::InputRejected =>
                "warning"@,
            _ => "info"@,
        },
{
    lemma_step_names();
}

/// The steps whose events ask the reader to act by default: an error, a
/// failure, a timeout, a retry, a loop, a failed output and an input required
/// or rejected.
pub proof fn law_step_actionable(step: RunStep)
    ensures
        actionable_by_default(step_event_of(step).0) <==> (step is Error || step is Fail
            || step is Timeout || step is Retry || step is LoopStep || step is OutputFailed
            || step is InputRequired || step is InputRejected),
{
    lemma_step_names();
}

/// Exactly the completion, failure, timeout, cancellation and termination
/// steps end the run.
pub proof fn law_ending_steps(step: RunStep)
    ensures
        step_event_of(step).2 <==> (step is Complete || step is Fail || step is Timeout
            || step is Cancel || step is Terminate),
{
}


} // verus!
