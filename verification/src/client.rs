//! The client's side of the exchange: the text of a request, and what a
//! response, read in full, says.

use crate::hms::{decimal, push_decimal};
use crate::status_line::{parse_status_code, status_code_of, StatusLineError};
use crate::text::chars_of;
use crate::timer::{Operation, SnapshotView, TimerSnapshot};
use vstd::prelude::*;
use vstd::string::*;
use vstd::utf8::encode_utf8;

verus! {

/// What the operator can ask for.
#[derive(Clone, Copy, Debug, PartialEq, Eq)]
pub enum Action {
    Status,
    Start(u64),
    Pause,
    Resume,
    Toggle,
    Extend(u64),
}

impl Action {
    /// The method of the request that asks for this action.
    pub open spec fn method_of(self) -> Seq<char> {
        match self {
            Action::Status => "GET"@,
            _ => "POST"@,
        }
    }

    /// The path of the request that asks for this action.
    pub open spec fn path_of(self) -> Seq<char> {
        match self {
            Action::Status => "/time_left"@,
            Action::Start(_) => "/start"@,
            Action::Pause => "/pause"@,
            Action::Resume => "/resume"@,
            Action::Toggle => "/toggle"@,
            Action::Extend(_) => "/extend"@,
        }
    }

    /// The seconds that the request carries in its body, if it has one.
    pub open spec fn seconds_of(self) -> Option<u64> {
        match self {
            Action::Start(seconds) => Some(seconds),
            Action::Extend(seconds) => Some(seconds),
            _ => None,
        }
    }

    /// The operation of the timer that this action stands for. The service
    /// has none for `Toggle`.
    pub open spec fn operation_of(self) -> Option<Operation> {
        match self {
            Action::Status => Some(Operation::Query),
            Action::Start(seconds) => Some(Operation::Start(seconds)),
            Action::Pause => Some(Operation::Pause),
            Action::Resume => Some(Operation::Resume),
            Action::Toggle => None,
            Action::Extend(seconds) => Some(Operation::Extend(seconds)),
        }
    }

    /// The method of the request that asks for this action.
    pub fn method(&self) -> (method: &'static str)
        ensures
            method@ == self.method_of(),
    {
        match self {
            Action::Status => "GET",
            _ => "POST",
        }
    }

    /// The path of the request that asks for this action.
    pub fn path(&self) -> (path: &'static str)
        ensures
            path@ == self.path_of(),
    {
        match self {
            Action::Status => "/time_left",
            Action::Start(_) => "/start",
            Action::Pause => "/pause",
            Action::Resume => "/resume",
            Action::Toggle => "/toggle",
            Action::Extend(_) => "/extend",
        }
    }

    /// The seconds that the request carries in its body, if it has one.
    pub fn seconds(&self) -> (seconds: Option<u64>)
        ensures
            seconds == self.seconds_of(),
    {
        match self {
            Action::Start(seconds) => Some(*seconds),
            Action::Extend(seconds) => Some(*seconds),
            _ => None,
        }
    }
}

/// Whether `pattern` stands in `text` at position `at`.
pub open spec fn occurs_at(text: Seq<char>, pattern: Seq<char>, at: int) -> bool {
    &&& 0 <= at
    &&& at + pattern.len() <= text.len()
    &&& text.subrange(at, at + pattern.len()) == pattern
}

/// The first position at or after `from` at which `pattern` stands in
/// `text`, if there is one.
pub open spec fn find_from(text: Seq<char>, pattern: Seq<char>, from: int) -> Option<int>
    decreases text.len() + 1 - from,
{
    if from < 0 || from + pattern.len() > text.len() {
        None
    } else if occurs_at(text, pattern, from) {
        Some(from)
    } else {
        find_from(text, pattern, from + 1)
    }
}

/// `text` cut in two at the first place where `pattern` stands in it: what
/// comes before the pattern and what comes after it.
pub open spec fn split_once_at(text: Seq<char>, pattern: Seq<char>) -> Option<
    (Seq<char>, Seq<char>),
> {
    match find_from(text, pattern, 0) {
        None => None,
        Some(at) => Some((text.take(at), text.skip(at + pattern.len()))),
    }
}

/// What `find_from` finds is an occurrence, and no occurrence comes before
/// it; where it finds nothing, there is none.
pub proof fn lemma_find_from_is_first(text: Seq<char>, pattern: Seq<char>, from: int)
    requires
        0 <= from,
    ensures
        match find_from(text, pattern, from) {
            Some(at) => from <= at && occurs_at(text, pattern, at) && forall|earlier: int|
                from <= earlier < at ==> !occurs_at(text, pattern, earlier),
            None => forall|at: int| from <= at ==> !occurs_at(text, pattern, at),
        },
    decreases text.len() + 1 - from,
{
    if from + pattern.len() <= text.len() && !occurs_at(text, pattern, from) {
        lemma_find_from_is_first(text, pattern, from + 1);
    }
}

/// What went wrong with a response, as mathematics.
pub enum ClientErrorView {
    MissingStatusLine,
    StatusLine(StatusLineError),
    MissingBodySeparator,
    Server { status: u16, body: Seq<char> },
}

/// What went wrong with a response.
#[derive(Debug, PartialEq, Eq)]
pub enum ClientError {
    /// No line break ends a first line.
    MissingStatusLine,
    /// The first line gave no status code.
    StatusLine(StatusLineError),
    /// No empty line parts the head from the body.
    MissingBodySeparator,
    /// The server answered with a status outside 200 to 299.
    Server { status: u16, body: String },
}

impl View for ClientError {
    type V = ClientErrorView;

    open spec fn view(&self) -> ClientErrorView {
        match self {
            ClientError::MissingStatusLine => ClientErrorView::MissingStatusLine,
            ClientError::StatusLine(error) => ClientErrorView::StatusLine(*error),
            ClientError::MissingBodySeparator => ClientErrorView::MissingBodySeparator,
            ClientError::Server { status, body } => ClientErrorView::Server {
                status: *status,
                body: body@,
            },
        }
    }
}

/// What a response says. Its first line, up to the first line break, gives
/// the status; the body is what follows the first empty line after that. A
/// status from 200 to 299 yields the body, any other is the server's error.
/// The faults are looked for in this order: the line break, the status code,
/// the empty line, the status itself.
pub open spec fn response_of(response: Seq<char>) -> Result<Seq<char>, ClientErrorView> {
    match split_once_at(response, "\r\n"@) {
        None => Err(ClientErrorView::MissingStatusLine),
        Some((status_line, rest)) => match status_code_of(status_line) {
            Err(error) => Err(ClientErrorView::StatusLine(error)),
            Ok(status) => match split_once_at(rest, "\r\n\r\n"@) {
                None => Err(ClientErrorView::MissingBodySeparator),
                Some((_, body)) => if 200 <= status < 300 {
                    Ok(body)
                } else {
                    Err(ClientErrorView::Server { status, body })
                },
            },
        },
    }
}

/// The header lines that announce a body; none for an empty body. The
/// length is that of the body in bytes.
pub open spec fn content_header(body: Seq<char>) -> Seq<char> {
    if body.len() == 0 {
        Seq::<char>::empty()
    } else {
        "Content-Type: application/json\r\nContent-Length: "@ + decimal(
            (encode_utf8(body).len() as usize) as nat,
        ) + "\r\n"@
    }
}

/// The text of a request: the request line, the two fixed headers, the
/// headers for the body if there is one, an empty line, the body.
pub open spec fn request_text(method: Seq<char>, path: Seq<char>, body: Seq<char>) -> Seq<char> {
    method + " "@ + path + " HTTP/1.1\r\nHost: localhost\r\nConnection: close\r\n"@
        + content_header(body) + "\r\n"@ + body
}

/// The body that a payload stands for: nothing where there is none.
pub open spec fn payload_text(payload: Option<String>) -> Seq<char> {
    match payload {
        Some(body) => body@,
        None => Seq::<char>::empty(),
    }
}

/// The line that reports a snapshot to the operator.
pub open spec fn snapshot_line(snapshot: SnapshotView) -> Seq<char> {
    "time_left="@ + snapshot.hms + " time_left_secs="@ + decimal(snapshot.time_left)
        + " running="@ + if snapshot.running {
        "true"@
    } else {
        "false"@
    }
}

/// What the operator is told about a status line that gave no code.
pub open spec fn status_line_message(error: StatusLineError) -> Seq<char> {
    match error {
        StatusLineError::MissingVersion => "malformed status line: missing HTTP version"@,
        StatusLineError::MissingCode => "malformed status line: missing status code"@,
        StatusLineError::InvalidCode => "malformed status line: invalid status code"@,
    }
}

/// What the operator is told about a response that went wrong.
pub open spec fn error_message(error: ClientErrorView) -> Seq<char> {
    match error {
        ClientErrorView::MissingStatusLine => "malformed HTTP response: missing status line"@,
        ClientErrorView::StatusLine(error) => status_line_message(error),
        ClientErrorView::MissingBodySeparator =>
            "malformed HTTP response: missing body separator"@,
        ClientErrorView::Server { status, body } => "server returned "@ + decimal(status as nat)
            + ": "@ + body,
    }
}

/// Whether `pattern` stands in `chars` at position `at`.
fn stands_at(chars: &Vec<char>, pattern: &Vec<char>, at: usize) -> (stands: bool)
    requires
        at + pattern.len() <= chars.len(),
    ensures
        stands == occurs_at(chars@, pattern@, at as int),
{
    let mut i: usize = 0;
    while i < pattern.len()
        invariant
            at + pattern.len() <= chars.len(),
            i <= pattern.len(),
            forall|j: int| 0 <= j < i ==> chars@[at + j] == pattern@[j],
        decreases pattern.len() - i,
    {
        if chars[at + i] != pattern[i] {
            proof {
                let part = chars@.subrange(at as int, at + pattern.len());
                assert(part[i as int] == chars@[at + i]);
            }
            return false;
        }
        i += 1;
    }
    proof {
        assert(chars@.subrange(at as int, at + pattern.len()) =~= pattern@);
    }
    true
}

/// Cuts `text` in two at the first place where `pattern` stands in it.
pub fn split_once<'a>(text: &'a str, pattern: &str) -> (parts: Option<(&'a str, &'a str)>)
    ensures
        match parts {
            Some((before, after)) => split_once_at(text@, pattern@) == Some((before@, after@)),
            None => split_once_at(text@, pattern@) is None,
        },
{
    let chars = chars_of(text);
    let wanted = chars_of(pattern);
    if wanted.len() > chars.len() {
        return None;
    }
    if wanted.len() == 0 {
        let before = text.substring_char(0, 0);
        proof {
            assert(chars@.subrange(0, 0) =~= wanted@);
            assert(before@ =~= text@.take(0));
            assert(text@ =~= text@.skip(0));
        }
        return Some((before, text));
    }
    let last: usize = chars.len() - wanted.len();
    let mut at: usize = 0;
    while at <= last
        invariant
            chars@ == text@,
            wanted@ == pattern@,
            0 < wanted.len() <= chars.len(),
            last == chars.len() - wanted.len(),
            at <= last + 1,
            find_from(chars@, wanted@, 0) == find_from(chars@, wanted@, at as int),
        decreases last + 1 - at,
    {
        if stands_at(&chars, &wanted, at) {
            let before = text.substring_char(0, at);
            let after = text.substring_char(at + wanted.len(), chars.len());
            proof {
                assert(before@ =~= text@.take(at as int));
                assert(after@ =~= text@.skip(at + wanted.len()));
            }
            return Some((before, after));
        }
        at += 1;
    }
    None
}

/// Reads a response that was received in full: the body of one that
/// reports success, or what went wrong.
pub fn parse_response(response: &str) -> (parsed: Result<String, ClientError>)
    ensures
        match parsed {
            Ok(body) => response_of(response@) == Ok::<Seq<char>, ClientErrorView>(body@),
            Err(error) => response_of(response@) == Err::<Seq<char>, ClientErrorView>(error@),
        },
{
    let (status_line, rest) = match split_once(response, "\r\n") {
        Some(parts) => parts,
        None => {
            return Err(ClientError::MissingStatusLine);
        },
    };
    let status = match parse_status_code(status_line) {
        Ok(status) => status,
        Err(error) => {
            return Err(ClientError::StatusLine(error));
        },
    };
    let body = match split_once(rest, "\r\n\r\n") {
        Some((_, body)) => body,
        None => {
            return Err(ClientError::MissingBodySeparator);
        },
    };
    if 200 <= status && status < 300 {
        Ok(String::from_str(body))
    } else {
        Err(ClientError::Server { status, body: String::from_str(body) })
    }
}

/// Writes the request that asks `method` of `path`, with `payload` as its
/// body if there is one.
pub fn build_request(method: &str, path: &str, payload: Option<String>) -> (request: String)
    ensures
        request@ == request_text(method@, path@, payload_text(payload)),
{
    let body = match payload {
        Some(body) => body,
        None => String::new(),
    };
    let mut request = String::from_str(method);
    request.append(" ");
    request.append(path);
    request.append(" HTTP/1.1\r\nHost: localhost\r\nConnection: close\r\n");
    if !body.as_str().is_empty() {
        request.append("Content-Type: application/json\r\nContent-Length: ");
        push_decimal(&mut request, body.as_str().len() as u64);
        request.append("\r\n");
    }
    request.append("\r\n");
    request.append(body.as_str());
    proof {
        assert(request@ =~= request_text(method@, path@, payload_text(payload)));
    }
    request
}

/// Renders the line that reports a snapshot to the operator.
pub fn render_snapshot(snapshot: &TimerSnapshot) -> (line: String)
    ensures
        line@ == snapshot_line(snapshot@),
{
    let mut line = String::from_str("time_left=");
    line.append(snapshot.time_left_hms.as_str());
    line.append(" time_left_secs=");
    push_decimal(&mut line, snapshot.time_left_secs);
    line.append(" running=");
    if snapshot.running {
        line.append("true");
    } else {
        line.append("false");
    }
    proof {
        assert(line@ =~= snapshot_line(snapshot@));
    }
    line
}

impl StatusLineError {
    /// What the operator is told about this fault.
    pub fn message(&self) -> (text: String)
        ensures
            text@ == status_line_message(*self),
    {
        match self {
            StatusLineError::MissingVersion => String::from_str(
                "malformed status line: missing HTTP version",
            ),
            StatusLineError::MissingCode => String::from_str(
                "malformed status line: missing status code",
            ),
            StatusLineError::InvalidCode => String::from_str(
                "malformed status line: invalid status code",
            ),
        }
    }
}

impl ClientError {
    /// What the operator is told about this fault.
    pub fn message(&self) -> (text: String)
        ensures
            text@ == error_message(self@),
    {
        match self {
            ClientError::MissingStatusLine => String::from_str(
                "malformed HTTP response: missing status line",
            ),
            ClientError::StatusLine(error) => error.message(),
            ClientError::MissingBodySeparator => String::from_str(
                "malformed HTTP response: missing body separator",
            ),
            ClientError::Server { status, body } => {
                let mut text = String::from_str("server returned ");
                push_decimal(&mut text, *status as u64);
                text.append(": ");
                text.append(body.as_str());
                proof {
                    assert(text@ =~= error_message(self@));
                }
                text
            },
        }
    }
}

} // verus!
