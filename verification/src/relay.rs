//! The response relay: what a browsing surface reports on the event bus is
//! decoded and handed to the request that waits for it.

use crate::evaluate::{classified, lemma_prefixed_payload_is_error, WaitOutcomeView, ERROR_PREFIX};
use crate::pending::{PendingRequests, Resolution};
use crate::request_id::is_request_id;
use crate::text::has_prefix;
use tokio::sync::oneshot::Sender;
use vstd::prelude::*;
use vstd::string::StringExecFns;

verus! {

/// The event on which browsing surfaces report.
pub const RESPONSE_EVENT: &'static str = "script-response";

/// The member of a report that holds the correlation identifier.
pub const ID_KEY: &'static str = "id";

/// The member of a report that holds the result, serialized as JSON.
pub const VALUE_KEY: &'static str = "value";

/// The member of a report that holds the message of an error.
pub const ERROR_KEY: &'static str = "error";

/// `serde_json::Error`, the reason a text is not a JSON document.
#[verifier::external_type_specification]
#[verifier::external_body]
pub struct ExJsonError(serde_json::Error);

/// What `serde_json` reads under `key` in `document`: nothing at all when
/// the text does not parse as one JSON value; otherwise the string under
/// `key`, if the value is an object that holds a string there.
pub uninterp spec fn json_string_member(document: Seq<char>, key: Seq<char>) -> Option<
    Option<Seq<char>>,
>;

/// Parses `document` with `serde_json::from_str` as a `serde_json::Value`
/// and reads `value[key].as_str()`. The contract names the outcome: an error
/// exactly when the text does not parse, and otherwise the member called
/// `json_string_member`. Whether the text parses is decided by the text
/// alone, whatever the key.
#[verifier::external_body]
fn string_member(document: &str, key: &str) -> (r: Result<Option<String>, serde_json::Error>)
    ensures
        match r {
            Ok(member) => json_string_member(document@, key@) == Some(member.deep_view()),
            Err(_) => json_string_member(document@, key@) is None,
        },
        forall|other: Seq<char>|
            (#[trigger] json_string_member(document@, other)) is Some == r is Ok,
{
    let value: serde_json::Value = serde_json::from_str(document)?;
    Ok(value[key].as_str().map(|s| s.to_string()))
}

/// The payload that a report turns into: the reserved prefix and the message
/// when it carries an error; else its value; else nothing.
pub open spec fn message_of(error: Option<Seq<char>>, value: Option<Seq<char>>) -> Seq<char> {
    match error {
        Some(message) => ERROR_PREFIX@ + message,
        None => match value {
            Some(json) => json,
            None => Seq::empty(),
        },
    }
}

/// The payload for the request that a report answers.
pub fn response_message(error: Option<String>, value: Option<String>) -> (message: String)
    ensures
        message@ == message_of(error.deep_view(), value.deep_view()),
{
    match error {
        Some(text) => {
            let mut message = String::from_str(ERROR_PREFIX);
            message.append(text.as_str());
            message
        },
        None => match value {
            Some(json) => json,
            None => String::new(),
        },
    }
}

/// A report, decoded: whom it answers and what it says.
#[derive(Debug, Clone, PartialEq, Eq)]
pub struct Completion {
    /// The correlation identifier; empty when the report names none.
    pub id: String,
    /// The payload for the waiting request.
    pub message: String,
}

/// The mathematical content of a [`Completion`].
pub ghost struct CompletionView {
    pub id: Seq<char>,
    pub message: Seq<char>,
}

impl View for Completion {
    type V = CompletionView;

    open spec fn view(&self) -> CompletionView {
        CompletionView { id: self.id@, message: self.message@ }
    }
}

/// What a report decodes to. A text that does not parse decodes to nothing.
/// A report without an identifier gets the empty identifier.
pub open spec fn decoded(payload: Seq<char>) -> Option<CompletionView> {
    let id = json_string_member(payload, ID_KEY@);
    let error = json_string_member(payload, ERROR_KEY@);
    let value = json_string_member(payload, VALUE_KEY@);
    if id is Some && error is Some && value is Some {
        Some(
            CompletionView {
                id: match id->0 {
                    Some(text) => text,
                    None => Seq::empty(),
                },
                message: message_of(error->0, value->0),
            },
        )
    } else {
        None
    }
}

/// Decodes the payload of a report.
pub fn decode_response(payload: &str) -> (report: Option<Completion>)
    ensures
        match report {
            Some(completion) => decoded(payload@) == Some(completion@),
            None => decoded(payload@) is None,
        },
{
    let id = match string_member(payload, ID_KEY) {
        Ok(Some(text)) => text,
        Ok(None) => String::new(),
        Err(_) => {
            return None;
        },
    };
    let error = match string_member(payload, ERROR_KEY) {
        Ok(member) => member,
        Err(_) => {
            return None;
        },
    };
    let value = match string_member(payload, VALUE_KEY) {
        Ok(member) => member,
        Err(_) => {
            return None;
        },
    };
    Some(Completion { id, message: response_message(error, value) })
}

/// Relays one report: the request that waits under the reported identifier
/// is answered and leaves the table. A payload that does not parse is
/// dropped, and a report that nobody waits for changes nothing.
pub fn relay_response(table: &mut PendingRequests, payload: &str) -> (outcome: Option<Resolution>)
    requires
        old(table).wf(),
    ensures
        final(table).wf(),
        match decoded(payload@) {
            Some(completion) => {
                &&& outcome is Some
                &&& final(table)@ == old(table)@.remove(completion.id)
                &&& outcome->0 is NoEntry <==> !old(table)@.contains_key(completion.id)
                &&& outcome->0 matches Resolution::ReceiverGone(returned) ==> returned@
                    == completion.message
            },
            None => outcome is None && final(table)@ == old(table)@,
        },
{
    match decode_response(payload) {
        Some(completion) => Some(table.resolve(completion.id.as_str(), completion.message)),
        None => None,
    }
}

/// What a script threw reaches its caller as the error with that very
/// message, whatever else the report holds.
pub proof fn lemma_thrown_error_reaches_caller(error: Seq<char>, value: Option<Seq<char>>)
    ensures
        classified(WaitOutcomeView::Payload(message_of(Some(error), value))) == Err::<
            Seq<char>,
            Seq<char>,
        >(error),
{
    lemma_prefixed_payload_is_error(error);
}

/// What a script returned reaches its caller as the result, unchanged, as
/// long as the serialized value does not itself begin with the reserved
/// prefix.
pub proof fn lemma_returned_value_reaches_caller(value: Seq<char>)
    requires
        !has_prefix(value, ERROR_PREFIX@),
    ensures
        classified(WaitOutcomeView::Payload(message_of(None, Some(value)))) == Ok::<
            Seq<char>,
            Seq<char>,
        >(value),
{
}

/// A serialized value that is empty or begins with anything but an
/// underscore does not begin with the reserved prefix. Every JSON text is
/// such a value.
pub proof fn lemma_plain_value_is_not_prefixed(value: Seq<char>)
    requires
        value.len() == 0 || value[0] != '_',
    ensures
        !has_prefix(value, ERROR_PREFIX@),
{
    reveal_strlit("__ERR__:");
    if has_prefix(value, ERROR_PREFIX@) {
        assert(value.subrange(0, ERROR_PREFIX@.len() as int)[0] == ERROR_PREFIX@[0]);
    }
}

/// A report that names no identifier answers nobody, as long as every
/// request waits under a well-formed identifier: the empty identifier that
/// such a report decodes to is none of them.
pub proof fn lemma_report_without_identifier_misses(table: Map<Seq<char>, Sender<String>>)
    requires
        forall|id: Seq<char>| table.contains_key(id) ==> is_request_id(id),
    ensures
        !table.contains_key(Seq::<char>::empty()),
        table.remove(Seq::<char>::empty()) == table,
{
    assert(!is_request_id(Seq::<char>::empty()));
    assert(table.remove(Seq::<char>::empty()) =~= table);
}

/// Two requests that wait under different identifiers, both new to the
/// table, each get their own answer, in whichever order the reports come.
/// Registering them overwrites nothing. The report for one is handed to the
/// sender of that request while the other keeps waiting with its own, and
/// once both are answered the table is as it was. What is handed over makes
/// the caller's answer the reported value, as long as the value does not
/// begin with the reserved prefix.
pub proof fn lemma_two_requests_get_their_own_answers(
    table: Map<Seq<char>, Sender<String>>,
    a: Seq<char>,
    sender_a: Sender<String>,
    value_a: Seq<char>,
    b: Seq<char>,
    sender_b: Sender<String>,
    value_b: Seq<char>,
)
    requires
        a != b,
        !table.contains_key(a),
        !table.contains_key(b),
        !has_prefix(value_a, ERROR_PREFIX@),
        !has_prefix(value_b, ERROR_PREFIX@),
    ensures
        ({
            let both = table.insert(a, sender_a).insert(b, sender_b);
            &&& both == table.insert(b, sender_b).insert(a, sender_a)
            &&& forall|other: Seq<char>| #[trigger]
                table.contains_key(other) ==> both.get(other) == table.get(other)
            &&& both.get(a) == Some(sender_a)
            &&& both.remove(a).get(b) == Some(sender_b)
            &&& both.get(b) == Some(sender_b)
            &&& both.remove(b).get(a) == Some(sender_a)
            &&& both.remove(a).remove(b) == table
            &&& both.remove(b).remove(a) == table
        }),
        classified(WaitOutcomeView::Payload(message_of(None, Some(value_a)))) == Ok::<
            Seq<char>,
            Seq<char>,
        >(value_a),
        classified(WaitOutcomeView::Payload(message_of(None, Some(value_b)))) == Ok::<
            Seq<char>,
            Seq<char>,
        >(value_b),
{
    let both = table.insert(a, sender_a).insert(b, sender_b);
    assert(both =~= table.insert(b, sender_b).insert(a, sender_a));
    assert(both.remove(a).remove(b) =~= table);
    assert(both.remove(b).remove(a) =~= table);
}

} // verus!
