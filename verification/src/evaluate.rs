//! The correlated evaluation protocol: a script is wrapped, registered
//! under a fresh identifier and injected; its answer is awaited for a bounded
//! time and then told apart into result and error.
//!
//! Injecting and waiting are the caller's work. This module registers the
//! request, says what is done next, and classifies what came back.

use crate::harness::{harness_text, wrap_script};
use crate::inject::{inject_next, not_found_text, InjectActionView, InjectEventView, InjectState};
use crate::pending::PendingRequests;
use crate::request_id::{is_request_id, mint_request_id};
use crate::text::{has_prefix, strip_prefix, text_result, unit_result};
use tokio::sync::oneshot::{Receiver, Sender};
use vstd::prelude::*;
use vstd::string::StringExecFns;

verus! {

/// The reserved prefix that marks a payload as the report of an error.
pub const ERROR_PREFIX: &'static str = "__ERR__:";

/// How long an answer is awaited by default, in milliseconds.
pub const STANDARD_TIMEOUT_MS: u64 = 800;

/// What precedes the adapter's message when the script could not be injected.
pub const INJECTION_FAILED: &'static str = "Failed to run script: ";

/// The error for a channel that was closed without an answer.
pub const CHANNEL_CLOSED: &'static str = "Channel closed before response";

/// The error for an answer that did not come in time.
pub const TIMED_OUT: &'static str = "Timed out waiting for script response";

/// How the wait for an answer ended.
#[derive(Debug, Clone, PartialEq, Eq)]
pub enum WaitOutcome {
    /// The receiver yielded this payload.
    Payload(String),
    /// The sender was dropped without sending.
    Closed,
    /// The time ran out.
    TimedOut,
}

/// The mathematical content of a [`WaitOutcome`].
pub ghost enum WaitOutcomeView {
    Payload(Seq<char>),
    Closed,
    TimedOut,
}

impl View for WaitOutcome {
    type V = WaitOutcomeView;

    open spec fn view(&self) -> WaitOutcomeView {
        match self {
            WaitOutcome::Payload(payload) => WaitOutcomeView::Payload(payload@),
            WaitOutcome::Closed => WaitOutcomeView::Closed,
            WaitOutcome::TimedOut => WaitOutcomeView::TimedOut,
        }
    }
}

/// What the caller of an evaluation gets for each way the wait can end. A
/// payload behind the reserved prefix is an error whose message is the rest
/// of the payload; any other payload is the result itself.
pub open spec fn classified(outcome: WaitOutcomeView) -> Result<Seq<char>, Seq<char>> {
    match outcome {
        WaitOutcomeView::Payload(payload) => if has_prefix(payload, ERROR_PREFIX@) {
            Err(payload.skip(ERROR_PREFIX@.len() as int))
        } else {
            Ok(payload)
        },
        WaitOutcomeView::Closed => Err(CHANNEL_CLOSED@),
        WaitOutcomeView::TimedOut => Err(TIMED_OUT@),
    }
}

/// Tells result and error apart once the wait is over.
pub fn classify_outcome(outcome: WaitOutcome) -> (answer: Result<String, String>)
    ensures
        text_result(answer) == classified(outcome@),
{
    match outcome {
        WaitOutcome::Payload(payload) => {
            match strip_prefix(payload.as_str(), ERROR_PREFIX) {
                Some(rest) => Err(rest),
                None => Ok(payload),
            }
        },
        WaitOutcome::Closed => Err(String::from_str(CHANNEL_CLOSED)),
        WaitOutcome::TimedOut => Err(String::from_str(TIMED_OUT)),
    }
}

/// Where an evaluation stands.
#[derive(Debug, Clone, Copy, PartialEq, Eq, Structural)]
pub enum EvalState {
    /// The harness is being injected; the answer will be awaited for this
    /// many milliseconds.
    Injecting { timeout_ms: u64 },
    /// The harness was injected and the answer is being awaited.
    Waiting,
    /// The evaluation is over.
    Finished,
}

/// What the caller reports back.
#[derive(Debug, PartialEq, Eq)]
pub enum EvalEvent {
    /// The injection adapter finished with this result.
    Injected(Result<(), String>),
    /// The wait for the answer ended this way.
    Waited(WaitOutcome),
}

/// The mathematical content of an [`EvalEvent`].
pub ghost enum EvalEventView {
    Injected(Result<(), Seq<char>>),
    Waited(WaitOutcomeView),
}

impl View for EvalEvent {
    type V = EvalEventView;

    open spec fn view(&self) -> EvalEventView {
        match self {
            EvalEvent::Injected(r) => EvalEventView::Injected(unit_result(*r)),
            EvalEvent::Waited(outcome) => EvalEventView::Waited(outcome@),
        }
    }
}

/// What the caller is to do next.
#[derive(Debug, PartialEq, Eq)]
pub enum EvalAction {
    /// Await the receiver, for at most this many milliseconds.
    Wait { timeout_ms: u64 },
    /// Stop, with this answer.
    Finish(Result<String, String>),
}

/// The mathematical content of an [`EvalAction`].
pub ghost enum EvalActionView {
    Wait { timeout_ms: u64 },
    Finish(Result<Seq<char>, Seq<char>>),
}

impl View for EvalAction {
    type V = EvalActionView;

    open spec fn view(&self) -> EvalActionView {
        match self {
            EvalAction::Wait { timeout_ms } => EvalActionView::Wait { timeout_ms: *timeout_ms },
            EvalAction::Finish(r) => EvalActionView::Finish(text_result(*r)),
        }
    }
}

/// The rule of the protocol: the state that follows `state` on `event`, and
/// what is to be done then. A script that could not be injected ends the
/// evaluation at once; otherwise the answer is awaited, and however the wait
/// ends, the evaluation ends with it. An event that does not answer what was
/// last asked for has no successor.
pub open spec fn eval_next(state: EvalState, event: EvalEventView) -> Option<
    (EvalState, EvalActionView),
> {
    match (state, event) {
        (EvalState::Injecting { timeout_ms }, EvalEventView::Injected(Ok(()))) => Some(
            (EvalState::Waiting, EvalActionView::Wait { timeout_ms }),
        ),
        (EvalState::Injecting { timeout_ms }, EvalEventView::Injected(Err(message))) => Some(
            (EvalState::Finished, EvalActionView::Finish(Err(INJECTION_FAILED@ + message))),
        ),
        (EvalState::Waiting, EvalEventView::Waited(outcome)) => Some(
            (EvalState::Finished, EvalActionView::Finish(classified(outcome))),
        ),
        _ => None,
    }
}

/// Takes an evaluation one step further.
pub fn eval_step(state: EvalState, event: EvalEvent) -> (next: Option<(EvalState, EvalAction)>)
    ensures
        match next {
            Some((state_after, action)) => eval_next(state, event@) == Some(
                (state_after, action@),
            ),
            None => eval_next(state, event@) is None,
        },
{
    match state {
        EvalState::Injecting { timeout_ms } => match event {
            EvalEvent::Injected(Ok(())) => Some(
                (EvalState::Waiting, EvalAction::Wait { timeout_ms }),
            ),
            EvalEvent::Injected(Err(message)) => {
                let mut failure = String::from_str(INJECTION_FAILED);
                failure.append(message.as_str());
                Some((EvalState::Finished, EvalAction::Finish(Err(failure))))
            },
            EvalEvent::Waited(_) => None,
        },
        EvalState::Waiting => match event {
            EvalEvent::Waited(outcome) => Some(
                (EvalState::Finished, EvalAction::Finish(classify_outcome(outcome))),
            ),
            EvalEvent::Injected(_) => None,
        },
        EvalState::Finished => None,
    }
}

/// A request that was registered and is ready to be injected.
#[derive(Debug)]
pub struct Evaluation {
    /// The identifier under which the request waits.
    pub id: String,
    /// The harness to inject.
    pub script: String,
    /// Where the answer will arrive.
    pub receiver: Receiver<String>,
    /// The state to continue from once the injection is over.
    pub state: EvalState,
}

/// Registers a request under the identifier `id` and wraps `script` for it.
/// The table gains the entry for `id`, put in place of one that was there
/// under the same identifier; every other entry stays as it is. Nothing of
/// this is undone when the request later fails.
pub fn begin_with_id(
    table: &mut PendingRequests,
    id: String,
    script: &str,
    timeout_ms: u64,
) -> (begun: Evaluation)
    requires
        old(table).wf(),
    ensures
        final(table).wf(),
        exists|sender: Sender<String>| final(table)@ == old(table)@.insert(id@, sender),
        forall|other: Seq<char>|
            other != id@ ==> (#[trigger] final(table)@.get(other)) == old(table)@.get(other),
        begun.id@ == id@,
        begun.script@ == harness_text(script@, id@),
        begun.state == (EvalState::Injecting { timeout_ms }),
{
    let wrapped = wrap_script(script, id.as_str());
    let receiver = table.register(id.clone());
    Evaluation { id, script: wrapped, receiver, state: EvalState::Injecting { timeout_ms } }
}

/// Begins an evaluation: mints a new identifier, registers the request under
/// it, and wraps `script` in the harness that reports under it.
pub fn begin_evaluation(
    table: &mut PendingRequests,
    script: &str,
    timeout_ms: u64,
) -> (begun: Evaluation)
    requires
        old(table).wf(),
    ensures
        final(table).wf(),
        is_request_id(begun.id@),
        exists|sender: Sender<String>| final(table)@ == old(table)@.insert(begun.id@, sender),
        forall|other: Seq<char>|
            other != begun.id@ ==> (#[trigger] final(table)@.get(other)) == old(table)@.get(
                other,
            ),
        begun.script@ == harness_text(script@, begun.id@),
        begun.state == (EvalState::Injecting { timeout_ms }),
{
    begin_with_id(table, mint_request_id(), script, timeout_ms)
}

/// How many steps an evaluation can still take.
pub open spec fn steps_left(state: EvalState) -> nat {
    match state {
        EvalState::Injecting { .. } => 2,
        EvalState::Waiting => 1,
        EvalState::Finished => 0,
    }
}

/// Every step brings an evaluation nearer to its end, and the step that
/// reaches the end is the one that hands out the answer: whatever is
/// reported, an evaluation is over after two steps at most.
pub proof fn lemma_evaluation_ends(state: EvalState, event: EvalEventView)
    ensures
        eval_next(state, event) matches Some((state_after, action)) ==> {
            &&& steps_left(state_after) < steps_left(state)
            &&& (state_after is Finished <==> action is Finish)
        },
{
}

/// A request for a label that no surface answers to fails at once. The
/// adapter ends after its two lookups with the error that names the label,
/// and submits nothing; the evaluation ends on that error without waiting
/// for an answer; and the table, which gained the entry of the request under
/// an identifier that was new to it, still holds every earlier entry with
/// the sender it had.
pub proof fn lemma_missing_surface_fails_at_once(
    label: Seq<char>,
    timeout_ms: u64,
    table: Map<Seq<char>, Sender<String>>,
    id: Seq<char>,
    sender: Sender<String>,
)
    requires
        !table.contains_key(id),
    ensures
        inject_next(InjectState::ContentLookup, InjectEventView::Absent, label) == Some(
            (InjectState::WindowLookup, InjectActionView::LookupWindow),
        ),
        inject_next(InjectState::WindowLookup, InjectEventView::Absent, label) == Some(
            (InjectState::Finished, InjectActionView::Finish(Err(not_found_text(label)))),
        ),
        eval_next(
            EvalState::Injecting { timeout_ms },
            EvalEventView::Injected(Err(not_found_text(label))),
        ) == Some(
            (
                EvalState::Finished,
                EvalActionView::Finish(Err(INJECTION_FAILED@ + not_found_text(label))),
            ),
        ),
        forall|other: Seq<char>| #[trigger]
            table.contains_key(other) ==> table.insert(id, sender).get(other) == table.get(other),
{
}

/// A request whose answer never comes ends with the time-out error, and
/// with no other: the wait is asked for with the bound the evaluation was
/// begun with, and when it runs out the evaluation is over.
pub proof fn lemma_unanswered_request_times_out(timeout_ms: u64)
    ensures
        eval_next(EvalState::Injecting { timeout_ms }, EvalEventView::Injected(Ok(()))) == Some(
            (EvalState::Waiting, EvalActionView::Wait { timeout_ms }),
        ),
        eval_next(EvalState::Waiting, EvalEventView::Waited(WaitOutcomeView::TimedOut)) == Some(
            (EvalState::Finished, EvalActionView::Finish(Err(TIMED_OUT@))),
        ),
{
}

/// A payload made of the reserved prefix and a message is classified as the
/// error with exactly that message.
pub proof fn lemma_prefixed_payload_is_error(message: Seq<char>)
    ensures
        classified(WaitOutcomeView::Payload(ERROR_PREFIX@ + message)) == Err::<
            Seq<char>,
            Seq<char>,
        >(message),
{
    let payload = ERROR_PREFIX@ + message;
    let n = ERROR_PREFIX@.len() as int;
    assert(payload.subrange(0, n) =~= ERROR_PREFIX@);
    assert(payload.skip(n) =~= message);
}

} // verus!
