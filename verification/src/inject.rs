//! The script injection adapter: which browsing surface a script goes to.
//!
//! A surface is addressed by a label. The content surfaces are asked first,
//! then the window surfaces; the script is submitted to the first surface
//! that answers to the label. Looking a surface up and submitting a script
//! are the caller's work: this module decides what is done next.

use crate::text::unit_result;
use vstd::prelude::*;
use vstd::string::StringExecFns;

verus! {

/// The message for a missing surface, up to the label.
pub const NOT_FOUND_OPEN: &'static str = "Webview/WebviewWindow '";

/// The message for a missing surface, behind the label.
pub const NOT_FOUND_CLOSE: &'static str = "' not found.";

/// What a fire-and-forget injection answers when the script was accepted.
pub const INJECTION_RECEIPT: &'static str = "Script executed successfully (result ignored)";

/// The error for a label that no surface answers to.
pub open spec fn not_found_text(label: Seq<char>) -> Seq<char> {
    NOT_FOUND_OPEN@ + label + NOT_FOUND_CLOSE@
}

/// The error for a label that no surface answers to; it names the label.
pub fn surface_not_found(label: &str) -> (message: String)
    ensures
        message@ == not_found_text(label@),
{
    let mut message = String::from_str(NOT_FOUND_OPEN);
    message.append(label);
    message.append(NOT_FOUND_CLOSE);
    message
}

/// Where an injection stands.
#[derive(Debug, Clone, Copy, PartialEq, Eq, Structural)]
pub enum InjectState {
    /// The content surfaces are being asked for the label.
    ContentLookup,
    /// No content surface answered; the window surfaces are being asked.
    WindowLookup,
    /// The script is being submitted to the content surface that was found.
    ContentSubmission,
    /// The script is being submitted to the window surface that was found.
    WindowSubmission,
    /// The injection is over.
    Finished,
}

/// What the caller reports back.
#[derive(Debug, PartialEq, Eq)]
pub enum InjectEvent {
    /// The lookup found a surface.
    Found,
    /// The lookup found none.
    Absent,
    /// The surface took the script, or refused it with a message.
    Submitted(Result<(), String>),
}

/// The mathematical content of an [`InjectEvent`].
pub ghost enum InjectEventView {
    Found,
    Absent,
    Submitted(Result<(), Seq<char>>),
}

impl View for InjectEvent {
    type V = InjectEventView;

    open spec fn view(&self) -> InjectEventView {
        match self {
            InjectEvent::Found => InjectEventView::Found,
            InjectEvent::Absent => InjectEventView::Absent,
            InjectEvent::Submitted(r) => InjectEventView::Submitted(unit_result(*r)),
        }
    }
}

/// What the caller is to do next.
#[derive(Debug, PartialEq, Eq)]
pub enum InjectAction {
    /// Look the label up among the content surfaces.
    LookupContent,
    /// Look the label up among the window surfaces.
    LookupWindow,
    /// Submit the script to the content surface that was found.
    SubmitToContent,
    /// Submit the script to the window surface that was found.
    SubmitToWindow,
    /// Stop, with this result.
    Finish(Result<(), String>),
}

/// The mathematical content of an [`InjectAction`].
pub ghost enum InjectActionView {
    LookupContent,
    LookupWindow,
    SubmitToContent,
    SubmitToWindow,
    Finish(Result<(), Seq<char>>),
}

impl View for InjectAction {
    type V = InjectActionView;

    open spec fn view(&self) -> InjectActionView {
        match self {
            InjectAction::LookupContent => InjectActionView::LookupContent,
            InjectAction::LookupWindow => InjectActionView::LookupWindow,
            InjectAction::SubmitToContent => InjectActionView::SubmitToContent,
            InjectAction::SubmitToWindow => InjectActionView::SubmitToWindow,
            InjectAction::Finish(r) => InjectActionView::Finish(unit_result(*r)),
        }
    }
}

/// The rule of the adapter: the state that follows `state` on `event`, and
/// what is to be done then. An event that does not answer what was last
/// asked for has no successor.
pub open spec fn inject_next(
    state: InjectState,
    event: InjectEventView,
    label: Seq<char>,
) -> Option<(InjectState, InjectActionView)> {
    match (state, event) {
        (InjectState::ContentLookup, InjectEventView::Found) => Some(
            (InjectState::ContentSubmission, InjectActionView::SubmitToContent),
        ),
        (InjectState::ContentLookup, InjectEventView::Absent) => Some(
            (InjectState::WindowLookup, InjectActionView::LookupWindow),
        ),
        (InjectState::WindowLookup, InjectEventView::Found) => Some(
            (InjectState::WindowSubmission, InjectActionView::SubmitToWindow),
        ),
        (InjectState::WindowLookup, InjectEventView::Absent) => Some(
            (InjectState::Finished, InjectActionView::Finish(Err(not_found_text(label)))),
        ),
        (InjectState::ContentSubmission, InjectEventView::Submitted(r)) => Some(
            (InjectState::Finished, InjectActionView::Finish(r)),
        ),
        (InjectState::WindowSubmission, InjectEventView::Submitted(r)) => Some(
            (InjectState::Finished, InjectActionView::Finish(r)),
        ),
        _ => None,
    }
}

/// Begins an injection: the content surfaces are asked first.
pub fn start_injection() -> (begin: (InjectState, InjectAction))
    ensures
        begin.0 == InjectState::ContentLookup,
        begin.1@ == InjectActionView::LookupContent,
{
    (InjectState::ContentLookup, InjectAction::LookupContent)
}

/// Takes the injection for `label` one step further.
pub fn inject_step(state: InjectState, event: InjectEvent, label: &str) -> (next: Option<
    (InjectState, InjectAction),
>)
    ensures
        match next {
            Some((state_after, action)) => inject_next(state, event@, label@) == Some(
                (state_after, action@),
            ),
            None => inject_next(state, event@, label@) is None,
        },
{
    match state {
        InjectState::ContentLookup => match event {
            InjectEvent::Found => Some(
                (InjectState::ContentSubmission, InjectAction::SubmitToContent),
            ),
            InjectEvent::Absent => Some((InjectState::WindowLookup, InjectAction::LookupWindow)),
            InjectEvent::Submitted(_) => None,
        },
        InjectState::WindowLookup => match event {
            InjectEvent::Found => Some(
                (InjectState::WindowSubmission, InjectAction::SubmitToWindow),
            ),
            InjectEvent::Absent => Some(
                (InjectState::Finished, InjectAction::Finish(Err(surface_not_found(label)))),
            ),
            InjectEvent::Submitted(_) => None,
        },
        InjectState::ContentSubmission | InjectState::WindowSubmission => match event {
            InjectEvent::Submitted(r) => Some((InjectState::Finished, InjectAction::Finish(r))),
            _ => None,
        },
        InjectState::Finished => None,
    }
}

/// The answer of a fire-and-forget injection: a fixed receipt when the script
/// was accepted, the adapter's error otherwise.
pub fn injection_receipt(injected: Result<(), String>) -> (answer: Result<String, String>)
    ensures
        match injected {
            Ok(()) => answer matches Ok(receipt) && receipt@ == INJECTION_RECEIPT@,
            Err(message) => answer matches Err(same) && same@ == message@,
        },
{
    match injected {
        Ok(()) => Ok(String::from_str(INJECTION_RECEIPT)),
        Err(message) => Err(message),
    }
}

/// How many steps an injection can still take.
pub open spec fn steps_left(state: InjectState) -> nat {
    match state {
        InjectState::ContentLookup => 3,
        InjectState::WindowLookup => 2,
        InjectState::ContentSubmission => 1,
        InjectState::WindowSubmission => 1,
        InjectState::Finished => 0,
    }
}

/// Every step brings an injection nearer to its end, and the step that
/// reaches the end is the one that hands out the result: whatever is
/// reported, an injection is over after three steps at most.
pub proof fn lemma_injection_ends(state: InjectState, event: InjectEventView, label: Seq<char>)
    ensures
        inject_next(state, event, label) matches Some((state_after, action)) ==> {
            &&& steps_left(state_after) < steps_left(state)
            &&& (state_after is Finished <==> action is Finish)
        },
{
}

/// The window surfaces are asked only after the content surfaces gave no
/// answer, and a script is submitted only to a surface that was found.
pub proof fn lemma_content_surface_comes_first(
    state: InjectState,
    event: InjectEventView,
    label: Seq<char>,
)
    ensures
        inject_next(state, event, label) matches Some((_, action)) ==> {
            &&& (action is LookupWindow ==> state is ContentLookup && event is Absent)
            &&& (action is SubmitToContent ==> state is ContentLookup && event is Found)
            &&& (action is SubmitToWindow ==> state is WindowLookup && event is Found)
            &&& !(action is LookupContent)
        },
{
}

} // verus!
