//! The service front end: which endpoint a request addresses, what it has to
//! carry, how it reaches the timer, and what is answered.
//!
//! A request is a method, a path and, for the endpoints that take one, a body
//! that carries a number of seconds. The transport hands these over as plain
//! values; reading and decoding the body is its business, and so is writing
//! the snapshot of a successful request as JSON. Everything that is decided
//! in between is decided here.

use crate::clock::Timestamp;
use crate::json::{describe_error, encode_text_member, json_text_member};
use crate::text::same_text;
use crate::timer::{Operation, TimerSnapshot, TimerState};
use vstd::prelude::*;
use vstd::string::*;
use vstd::utf8::encode_utf8;

verus! {

/// Status of a request that was carried out.
pub const STATUS_OK: u16 = 200;

/// Status of a request whose body could not be read as a number of seconds.
pub const STATUS_BAD_REQUEST: u16 = 400;

/// Status of a request for a method and path that the service does not have.
pub const STATUS_NOT_FOUND: u16 = 404;

/// Status of a reply that could not be encoded.
pub const STATUS_INTERNAL_SERVER_ERROR: u16 = 500;

/// The content type of every reply.
pub const CONTENT_TYPE: &'static str = "application/json";

/// The endpoints of the service.
#[derive(Clone, Copy, Debug, PartialEq, Eq)]
pub enum Endpoint {
    TimeLeft,
    Start,
    Pause,
    Resume,
    Extend,
}

impl Endpoint {
    /// Whether requests to this endpoint carry a number of seconds.
    pub open spec fn needs_seconds(self) -> bool {
        self == Endpoint::Start || self == Endpoint::Extend
    }

    /// The operation that a request to this endpoint asks for; `seconds` is
    /// what its body carried, and counts only where the endpoint takes it.
    pub open spec fn operation_of(self, seconds: u64) -> Operation {
        match self {
            Endpoint::TimeLeft => Operation::Query,
            Endpoint::Start => Operation::Start(seconds),
            Endpoint::Pause => Operation::Pause,
            Endpoint::Resume => Operation::Resume,
            Endpoint::Extend => Operation::Extend(seconds),
        }
    }

    /// Whether requests to this endpoint carry a number of seconds.
    pub fn takes_seconds(&self) -> (takes: bool)
        ensures
            takes == self.needs_seconds(),
    {
        match self {
            Endpoint::Start => true,
            Endpoint::Extend => true,
            _ => false,
        }
    }

    /// The operation that a request to this endpoint asks for.
    pub fn operation(&self, seconds: u64) -> (operation: Operation)
        ensures
            operation == self.operation_of(seconds),
    {
        match self {
            Endpoint::TimeLeft => Operation::Query,
            Endpoint::Start => Operation::Start(seconds),
            Endpoint::Pause => Operation::Pause,
            Endpoint::Resume => Operation::Resume,
            Endpoint::Extend => Operation::Extend(seconds),
        }
    }
}

/// The endpoint that a method and a path address, if there is one. Both are
/// compared letter for letter.
pub open spec fn endpoint_of(method: Seq<char>, path: Seq<char>) -> Option<Endpoint> {
    if method == "GET"@ && path == "/time_left"@ {
        Some(Endpoint::TimeLeft)
    } else if method == "POST"@ && path == "/start"@ {
        Some(Endpoint::Start)
    } else if method == "POST"@ && path == "/pause"@ {
        Some(Endpoint::Pause)
    } else if method == "POST"@ && path == "/resume"@ {
        Some(Endpoint::Resume)
    } else if method == "POST"@ && path == "/extend"@ {
        Some(Endpoint::Extend)
    } else {
        None
    }
}

/// Finds the endpoint that a request addresses.
pub fn route(method: &str, path: &str) -> (endpoint: Option<Endpoint>)
    ensures
        endpoint == endpoint_of(method@, path@),
{
    if same_text(method, "GET") && same_text(path, "/time_left") {
        Some(Endpoint::TimeLeft)
    } else if same_text(method, "POST") && same_text(path, "/start") {
        Some(Endpoint::Start)
    } else if same_text(method, "POST") && same_text(path, "/pause") {
        Some(Endpoint::Pause)
    } else if same_text(method, "POST") && same_text(path, "/resume") {
        Some(Endpoint::Resume)
    } else if same_text(method, "POST") && same_text(path, "/extend") {
        Some(Endpoint::Extend)
    } else {
        None
    }
}

/// Why a request body gave no number of seconds; each carries the detail that
/// the transport or the decoder reported.
#[derive(Debug, PartialEq, Eq)]
pub enum BodyError {
    /// The body could not be read in full.
    Unreadable(String),
    /// The body was read, but is not an object with a `seconds` member that
    /// holds an unsigned integer.
    Malformed(String),
}

/// What the client is told about a body that gave no number of seconds.
pub open spec fn rejection_message(error: BodyError) -> Seq<char> {
    match error {
        BodyError::Unreadable(detail) => "invalid body: "@ + detail@,
        BodyError::Malformed(detail) => "expected JSON like {\"seconds\": 300}: "@ + detail@,
    }
}

/// A reply as the transport sends it: a status and a JSON body.
#[derive(Debug, PartialEq, Eq)]
pub struct Reply {
    pub status: u16,
    pub body: Vec<u8>,
}

/// A reply as mathematics.
pub struct ReplyView {
    pub status: u16,
    pub body: Seq<u8>,
}

impl View for Reply {
    type V = ReplyView;

    open spec fn view(&self) -> ReplyView {
        ReplyView { status: self.status, body: self.body@ }
    }
}

/// The body that stands in for one that could not be encoded. The detail is
/// put between the quotes as it is.
pub open spec fn serialization_failure_text(detail: Seq<char>) -> Seq<char> {
    "{\"error\":\"serialization failure: "@ + detail + "\"}"@
}

/// The reply for a body that was to be sent with `status`. Where encoding
/// gave bytes, they go out under that status. Where it gave an error, the
/// status is 500 and the body reports the failure.
pub open spec fn json_reply(status: u16, encoded: Result<Seq<u8>, Seq<char>>) -> ReplyView {
    match encoded {
        Ok(bytes) => ReplyView { status, body: bytes },
        Err(detail) => ReplyView {
            status: STATUS_INTERNAL_SERVER_ERROR,
            body: encode_utf8(serialization_failure_text(detail)),
        },
    }
}

/// The outcome of an encoding, seen as sequences.
pub open spec fn encoded_view(encoded: Result<Vec<u8>, String>) -> Result<Seq<u8>, Seq<char>> {
    match encoded {
        Ok(bytes) => Ok(bytes@),
        Err(detail) => Err(detail@),
    }
}

/// The reply that tells the client what went wrong: under `status`, the JSON
/// object whose one member, `error`, holds the message.
pub open spec fn error_reply(status: u16, message: Seq<char>) -> ReplyView {
    json_reply(status, Ok(json_text_member("error"@, message)))
}

/// Frames an encoded body as a reply; `encoded` is what the JSON encoder
/// gave for the value to be sent, or the text of its error.
pub fn json_response(status: u16, encoded: Result<Vec<u8>, String>) -> (reply: Reply)
    ensures
        reply@ == json_reply(status, encoded_view(encoded)),
{
    match encoded {
        Ok(body) => Reply { status, body },
        Err(detail) => {
            let mut text = String::from_str("{\"error\":\"serialization failure: ");
            text.append(detail.as_str());
            text.append("\"}");
            Reply { status: STATUS_INTERNAL_SERVER_ERROR, body: text.as_str().as_bytes_vec() }
        },
    }
}

/// Frames the encoding of a snapshot as the reply to a request that was
/// carried out; `encoded` is what the JSON encoder gave for the snapshot, or
/// the text of its error.
pub fn snapshot_response(encoded: Result<Vec<u8>, String>) -> (reply: Reply)
    ensures
        reply@ == json_reply(STATUS_OK, encoded_view(encoded)),
{
    json_response(STATUS_OK, encoded)
}

/// The reply that tells the client what went wrong.
pub fn error_response(status: u16, message: &str) -> (reply: Reply)
    ensures
        reply@ == error_reply(status, message@),
{
    let encoded = match encode_text_member("error", message) {
        Ok(bytes) => Ok(bytes),
        Err(error) => Err(describe_error(&error)),
    };
    json_response(status, encoded)
}

/// Checks what decoding a request body gave: the seconds go through, an
/// error becomes the reply that rejects the request.
pub fn parse_seconds_body(decoded: Result<u64, BodyError>) -> (parsed: Result<u64, Reply>)
    ensures
        match decoded {
            Ok(seconds) => parsed == Ok::<u64, Reply>(seconds),
            Err(error) => parsed matches Err(reply) && reply@ == error_reply(
                STATUS_BAD_REQUEST,
                rejection_message(error),
            ),
        },
{
    match decoded {
        Ok(seconds) => Ok(seconds),
        Err(BodyError::Unreadable(detail)) => {
            let mut message = String::from_str("invalid body: ");
            message.append(detail.as_str());
            Err(error_response(STATUS_BAD_REQUEST, message.as_str()))
        },
        Err(BodyError::Malformed(detail)) => {
            let mut message = String::from_str("expected JSON like {\"seconds\": 300}: ");
            message.append(detail.as_str());
            Err(error_response(STATUS_BAD_REQUEST, message.as_str()))
        },
    }
}

/// Why a request does not reach the timer: the status and the message of the
/// reply that rejects it.
pub struct Rejection {
    pub status: u16,
    pub message: Seq<char>,
}

/// What a request asks of the timer, or why it is rejected. A method and
/// path without an endpoint are not found; an endpoint that takes seconds
/// rejects a body that gave none; every other request is an operation.
pub open spec fn request_of(
    method: Seq<char>,
    path: Seq<char>,
    decoded: Result<u64, BodyError>,
) -> Result<Operation, Rejection> {
    match endpoint_of(method, path) {
        None => Err(Rejection { status: STATUS_NOT_FOUND, message: "route not found"@ }),
        Some(endpoint) => if endpoint.needs_seconds() {
            match decoded {
                Ok(seconds) => Ok(endpoint.operation_of(seconds)),
                Err(error) => Err(
                    Rejection { status: STATUS_BAD_REQUEST, message: rejection_message(error) },
                ),
            }
        } else {
            Ok(endpoint.operation_of(0))
        },
    }
}

/// Decides what a request asks of the timer, without touching the timer.
/// `decoded` is what decoding the body as a number of seconds gave; only the
/// endpoints that take seconds look at it.
pub fn plan_request(method: &str, path: &str, decoded: Result<u64, BodyError>) -> (planned: Result<
    Operation,
    Reply,
>)
    ensures
        match request_of(method@, path@, decoded) {
            Ok(operation) => planned == Ok::<Operation, Reply>(operation),
            Err(rejection) => planned matches Err(reply) && reply@ == error_reply(
                rejection.status,
                rejection.message,
            ),
        },
{
    match route(method, path) {
        None => Err(error_response(STATUS_NOT_FOUND, "route not found")),
        Some(endpoint) => {
            if endpoint.takes_seconds() {
                match parse_seconds_body(decoded) {
                    Ok(seconds) => Ok(endpoint.operation(seconds)),
                    Err(reply) => Err(reply),
                }
            } else {
                Ok(endpoint.operation(0))
            }
        },
    }
}

/// What comes of a request: the snapshot to be sent with status 200, or the
/// reply that rejects it.
#[derive(Debug, PartialEq, Eq)]
pub enum Outcome {
    Snapshot(TimerSnapshot),
    Rejected(Reply),
}

/// Handles one request as of `now`. A rejected request leaves the timer
/// exactly as it was; any other carries out its operation and is answered
/// with the snapshot taken right after it.
pub fn handle_request_at(
    state: &mut TimerState,
    method: &str,
    path: &str,
    decoded: Result<u64, BodyError>,
    now: Timestamp,
) -> (outcome: Outcome)
    ensures
        final(state).clock() == old(state).clock(),
        old(state).wf() ==> final(state).wf(),
        match request_of(method@, path@, decoded) {
            Ok(operation) => {
                &&& final(state)@ == old(state)@.apply(operation, now@)
                &&& outcome matches Outcome::Snapshot(snapshot)
                &&& snapshot@ == final(state)@.snapshot()
            },
            Err(rejection) => {
                &&& *final(state) == *old(state)
                &&& outcome matches Outcome::Rejected(reply)
                &&& reply@ == error_reply(rejection.status, rejection.message)
            },
        },
{
    match plan_request(method, path, decoded) {
        Ok(operation) => Outcome::Snapshot(state.apply_at(operation, now)),
        Err(reply) => Outcome::Rejected(reply),
    }
}

/// Handles one request against the timer's own clock. A rejected request
/// leaves the timer exactly as it was; any other carries out its operation
/// and is answered with the snapshot taken right after it, each step at
/// whatever the clock read then.
pub fn handle_request(
    state: &mut TimerState,
    method: &str,
    path: &str,
    decoded: Result<u64, BodyError>,
) -> (outcome: Outcome)
    ensures
        final(state).clock() == old(state).clock(),
        old(state).wf() ==> final(state).wf(),
        match request_of(method@, path@, decoded) {
            Ok(operation) => {
                &&& exists|first: nat, second: nat, third: nat|
                    final(state)@ == #[trigger] old(state)@.perform(
                        operation,
                        first,
                        second,
                    ).refresh(third)
                &&& outcome matches Outcome::Snapshot(snapshot)
                &&& snapshot@ == final(state)@.snapshot()
            },
            Err(rejection) => {
                &&& *final(state) == *old(state)
                &&& outcome matches Outcome::Rejected(reply)
                &&& reply@ == error_reply(rejection.status, rejection.message)
            },
        },
{
    match plan_request(method, path, decoded) {
        Ok(operation) => Outcome::Snapshot(state.apply(operation)),
        Err(reply) => Outcome::Rejected(reply),
    }
}

} // verus!
