use timersock::clock::Timestamp;
use timersock::service::{
    error_response, handle_request, handle_request_at, json_response, parse_seconds_body,
    plan_request, route, snapshot_response, BodyError, Endpoint, Outcome, Reply,
    STATUS_BAD_REQUEST, STATUS_INTERNAL_SERVER_ERROR, STATUS_NOT_FOUND, STATUS_OK,
};
use timersock::timer::{Operation, TimerState};

fn at(secs: u64) -> Timestamp {
    Timestamp::from_secs(secs)
}

fn error_field(reply: &Reply) -> String {
    let value: serde_json::Value = serde_json::from_slice(&reply.body).expect("body is JSON");
    let object = value.as_object().expect("body is an object");
    assert_eq!(object.len(), 1);
    object.get("error").and_then(|e| e.as_str()).expect("error is a string").to_string()
}

fn decode_error(body: &str) -> String {
    serde_json::from_str::<u64>(body).expect_err("not a number").to_string()
}

#[test]
fn the_five_routes() {
    assert_eq!(route("GET", "/time_left"), Some(Endpoint::TimeLeft));
    assert_eq!(route("POST", "/start"), Some(Endpoint::Start));
    assert_eq!(route("POST", "/pause"), Some(Endpoint::Pause));
    assert_eq!(route("POST", "/resume"), Some(Endpoint::Resume));
    assert_eq!(route("POST", "/extend"), Some(Endpoint::Extend));
}

#[test]
fn everything_else_has_no_route() {
    for (method, path) in [
        ("GET", "/nope"),
        ("GET", "/start"),
        ("POST", "/time_left"),
        ("POST", "/toggle"),
        ("PUT", "/start"),
        ("get", "/time_left"),
        ("GET", "/time_left/"),
        ("GET", "time_left"),
        ("GET", ""),
        ("", "/pause"),
        ("POST", "/START"),
        ("POST", "/extend?seconds=3"),
        ("DELETE", "/pause"),
    ] {
        assert_eq!(route(method, path), None, "{method} {path}");
    }
}

#[test]
fn only_start_and_extend_take_seconds() {
    assert!(Endpoint::Start.takes_seconds());
    assert!(Endpoint::Extend.takes_seconds());
    assert!(!Endpoint::TimeLeft.takes_seconds());
    assert!(!Endpoint::Pause.takes_seconds());
    assert!(!Endpoint::Resume.takes_seconds());
}

#[test]
fn each_endpoint_has_its_operation() {
    assert_eq!(Endpoint::TimeLeft.operation(9), Operation::Query);
    assert_eq!(Endpoint::Start.operation(9), Operation::Start(9));
    assert_eq!(Endpoint::Pause.operation(9), Operation::Pause);
    assert_eq!(Endpoint::Resume.operation(9), Operation::Resume);
    assert_eq!(Endpoint::Extend.operation(9), Operation::Extend(9));
}

#[test]
fn json_response_passes_encoded_bytes_through() {
    let reply = json_response(STATUS_OK, Ok(b"{\"a\":1}".to_vec()));
    assert_eq!(reply, Reply { status: 200, body: b"{\"a\":1}".to_vec() });
    let reply = json_response(STATUS_NOT_FOUND, Ok(Vec::new()));
    assert_eq!(reply, Reply { status: 404, body: Vec::new() });
}

#[test]
fn json_response_reports_a_failed_encoding() {
    let reply = json_response(STATUS_OK, Err("key must be a string".to_string()));
    assert_eq!(reply.status, STATUS_INTERNAL_SERVER_ERROR);
    assert_eq!(reply.status, 500);
    assert_eq!(
        reply.body,
        b"{\"error\":\"serialization failure: key must be a string\"}".to_vec()
    );
    let reply = json_response(STATUS_BAD_REQUEST, Err("caf\u{e9} \"x\"".to_string()));
    assert_eq!(reply.status, 500);
    assert_eq!(
        reply.body,
        "{\"error\":\"serialization failure: caf\u{e9} \"x\"\"}".as_bytes().to_vec()
    );
}

#[test]
fn snapshot_response_sends_the_encoding_with_status_200() {
    let encoded = b"{\"time_left_secs\":5,\"time_left_hms\":\"00:00:05\",\"running\":true}".to_vec();
    let reply = snapshot_response(Ok(encoded.clone()));
    assert_eq!(reply, Reply { status: 200, body: encoded });
    let reply = snapshot_response(Err("boom".to_string()));
    assert_eq!(reply.status, 500);
    assert_eq!(reply.body, b"{\"error\":\"serialization failure: boom\"}".to_vec());
}

#[test]
fn error_response_keeps_the_status_it_was_given() {
    for status in [400u16, 404, 500, 418, 0, u16::MAX] {
        let reply = error_response(status, "x");
        assert_eq!(reply, Reply { status, body: b"{\"error\":\"x\"}".to_vec() });
    }
    let reply = error_response(STATUS_BAD_REQUEST, "");
    assert_eq!(reply, Reply { status: 400, body: b"{\"error\":\"\"}".to_vec() });
}

#[test]
fn error_response_is_a_json_object_with_the_message() {
    let reply = error_response(STATUS_NOT_FOUND, "route not found");
    assert_eq!(reply.status, 404);
    assert_eq!(reply.body, b"{\"error\":\"route not found\"}".to_vec());
    assert_eq!(error_field(&reply), "route not found");
}

#[test]
fn error_response_escapes_what_json_cannot_hold_as_it_is() {
    let message = "a \"quoted\" \\ line\nbreak \u{1} caf\u{e9}";
    let reply = error_response(STATUS_BAD_REQUEST, message);
    assert_eq!(reply.status, 400);
    assert_ne!(reply.body, message.as_bytes().to_vec());
    assert_eq!(
        reply.body,
        "{\"error\":\"a \\\"quoted\\\" \\\\ line\\nbreak \\u0001 caf\u{e9}\"}".as_bytes().to_vec()
    );
    assert_eq!(error_field(&reply), message);
}

#[test]
fn a_decoded_body_gives_its_seconds() {
    assert_eq!(parse_seconds_body(Ok(300)), Ok(300));
    assert_eq!(parse_seconds_body(Ok(0)), Ok(0));
    assert_eq!(parse_seconds_body(Ok(u64::MAX)), Ok(u64::MAX));
}

#[test]
fn a_malformed_body_is_a_bad_request() {
    let detail = decode_error("\"abc\"");
    let reply = parse_seconds_body(Err(BodyError::Malformed(detail.clone()))).unwrap_err();
    assert_eq!(reply.status, 400);
    assert_eq!(error_field(&reply), format!("expected JSON like {{\"seconds\": 300}}: {detail}"));
}

#[test]
fn an_unreadable_body_is_a_bad_request() {
    let reply =
        parse_seconds_body(Err(BodyError::Unreadable("connection reset".to_string()))).unwrap_err();
    assert_eq!(reply.status, 400);
    assert_eq!(error_field(&reply), "invalid body: connection reset");
}

#[test]
fn plan_request_decides_without_a_timer() {
    assert_eq!(plan_request("GET", "/time_left", Ok(5)), Ok(Operation::Query));
    assert_eq!(
        plan_request("GET", "/time_left", Err(BodyError::Malformed("x".to_string()))),
        Ok(Operation::Query)
    );
    assert_eq!(plan_request("POST", "/start", Ok(5)), Ok(Operation::Start(5)));
    assert_eq!(plan_request("POST", "/extend", Ok(0)), Ok(Operation::Extend(0)));
    assert_eq!(
        plan_request("POST", "/pause", Err(BodyError::Unreadable("x".to_string()))),
        Ok(Operation::Pause)
    );
    assert_eq!(plan_request("POST", "/resume", Ok(1)), Ok(Operation::Resume));
    let reply = plan_request("POST", "/extend", Err(BodyError::Malformed("x".to_string())))
        .unwrap_err();
    assert_eq!(reply.status, 400);
    let reply = plan_request("POST", "/toggle", Ok(1)).unwrap_err();
    assert_eq!(reply.status, 404);
}

#[test]
fn post_start_with_a_body_that_is_no_number_is_rejected_and_changes_nothing() {
    let mut state = TimerState::new();
    state.start_at(42, at(10));
    let before = (state.time_left_secs(), state.is_running(), state.updated_at().as_nanos());

    let detail = "invalid type: string \"abc\", expected u64 at line 1 column 16".to_string();
    let outcome = handle_request_at(
        &mut state,
        "POST",
        "/start",
        Err(BodyError::Malformed(detail.clone())),
        at(20),
    );
    let reply = match outcome {
        Outcome::Rejected(reply) => reply,
        Outcome::Snapshot(snapshot) => panic!("carried out: {snapshot:?}"),
    };
    assert_eq!(reply.status, 400);
    assert_eq!(error_field(&reply), format!("expected JSON like {{\"seconds\": 300}}: {detail}"));
    let after = (state.time_left_secs(), state.is_running(), state.updated_at().as_nanos());
    assert_eq!(before, after);

    let outcome = handle_request(
        &mut state,
        "POST",
        "/extend",
        Err(BodyError::Unreadable("broken pipe".to_string())),
    );
    match outcome {
        Outcome::Rejected(reply) => {
            assert_eq!(reply.status, 400);
            assert_eq!(error_field(&reply), "invalid body: broken pipe");
        }
        Outcome::Snapshot(snapshot) => panic!("carried out: {snapshot:?}"),
    }
    let after = (state.time_left_secs(), state.is_running(), state.updated_at().as_nanos());
    assert_eq!(before, after);
}

#[test]
fn get_of_an_unknown_path_is_not_found() {
    let mut state = TimerState::new();
    state.start_at(42, at(10));
    let before = (state.time_left_secs(), state.is_running(), state.updated_at().as_nanos());
    let outcome = handle_request_at(&mut state, "GET", "/nope", Ok(0), at(20));
    match outcome {
        Outcome::Rejected(reply) => {
            assert_eq!(reply.status, 404);
            assert_eq!(error_field(&reply), "route not found");
        }
        Outcome::Snapshot(snapshot) => panic!("carried out: {snapshot:?}"),
    }
    let after = (state.time_left_secs(), state.is_running(), state.updated_at().as_nanos());
    assert_eq!(before, after);

    match handle_request(&mut state, "POST", "/toggle", Ok(0)) {
        Outcome::Rejected(reply) => assert_eq!(reply.status, 404),
        Outcome::Snapshot(snapshot) => panic!("carried out: {snapshot:?}"),
    }
}

#[test]
fn requests_reach_the_timer_and_are_answered_with_a_snapshot() {
    let mut state = TimerState::new();
    let shown = |outcome: Outcome| match outcome {
        Outcome::Snapshot(s) => (s.time_left_secs, s.time_left_hms, s.running),
        Outcome::Rejected(reply) => panic!("rejected: {reply:?}"),
    };
    let ignored = || Err(BodyError::Malformed("EOF while parsing a value".to_string()));

    let outcome = handle_request_at(&mut state, "POST", "/start", Ok(300), at(0));
    assert_eq!(shown(outcome), (300, "00:05:00".to_string(), true));
    let outcome = handle_request_at(&mut state, "GET", "/time_left", ignored(), at(10));
    assert_eq!(shown(outcome), (290, "00:04:50".to_string(), true));
    let outcome = handle_request_at(&mut state, "POST", "/pause", ignored(), at(20));
    assert_eq!(shown(outcome), (280, "00:04:40".to_string(), false));
    let outcome = handle_request_at(&mut state, "POST", "/extend", Ok(20), at(500));
    assert_eq!(shown(outcome), (300, "00:05:00".to_string(), false));
    let outcome = handle_request_at(&mut state, "POST", "/resume", ignored(), at(600));
    assert_eq!(shown(outcome), (300, "00:05:00".to_string(), true));
    let outcome = handle_request_at(&mut state, "GET", "/time_left", ignored(), at(900));
    assert_eq!(shown(outcome), (0, "00:00:00".to_string(), false));
}

#[test]
fn requests_against_the_real_clock() {
    let mut state = TimerState::new();
    match handle_request(&mut state, "POST", "/extend", Ok(90)) {
        Outcome::Snapshot(snapshot) => {
            assert_eq!(snapshot.time_left_secs, 90);
            assert_eq!(snapshot.time_left_hms, "00:01:30");
            assert!(!snapshot.running);
        }
        Outcome::Rejected(reply) => panic!("rejected: {reply:?}"),
    }
    match handle_request(&mut state, "GET", "/time_left", Ok(0)) {
        Outcome::Snapshot(snapshot) => assert_eq!(snapshot.time_left_secs, 90),
        Outcome::Rejected(reply) => panic!("rejected: {reply:?}"),
    }
}
