use timersock::client::{
    build_request, parse_response, render_snapshot, split_once, ClientError,
};
use timersock::status_line::{is_whitespace, parse_status_code, StatusLineError};
use timersock::timer::TimerSnapshot;

#[test]
fn status_code_of_an_ordinary_status_line() {
    assert_eq!(parse_status_code("HTTP/1.1 200 OK"), Ok(200));
    assert_eq!(parse_status_code("HTTP/1.1 404 Not Found"), Ok(404));
    assert_eq!(parse_status_code("HTTP/1.1 500"), Ok(500));
    assert_eq!(parse_status_code("  HTTP/1.0\t\t400  Bad   Request "), Ok(400));
    assert_eq!(parse_status_code("x 0"), Ok(0));
    assert_eq!(parse_status_code("x 65535"), Ok(65535));
    assert_eq!(parse_status_code("x +12"), Ok(12));
    assert_eq!(parse_status_code("x 00000000000000000000200 y"), Ok(200));
    assert_eq!(parse_status_code("HTTP/1.1\u{a0}204\u{3000}No Content"), Ok(204));
}

#[test]
fn status_line_without_a_word() {
    assert_eq!(parse_status_code(""), Err(StatusLineError::MissingVersion));
    assert_eq!(parse_status_code("   \t \r\n"), Err(StatusLineError::MissingVersion));
}

#[test]
fn status_line_without_a_code() {
    assert_eq!(parse_status_code("HTTP/1.1"), Err(StatusLineError::MissingCode));
    assert_eq!(parse_status_code("  HTTP/1.1   "), Err(StatusLineError::MissingCode));
}

#[test]
fn status_line_with_a_code_that_is_no_number() {
    for line in [
        "HTTP/1.1 OK",
        "HTTP/1.1 20x",
        "HTTP/1.1 -1",
        "HTTP/1.1 +",
        "HTTP/1.1 -",
        "HTTP/1.1 ++1",
        "HTTP/1.1 65536",
        "HTTP/1.1 99999999999999999999999",
        "HTTP/1.1 2_0",
        "HTTP/1.1 0x10",
        "HTTP/1.1 2.0",
        "HTTP/1.1 \u{663}\u{660}",
        "HTTP/1.1 655350x",
    ] {
        assert_eq!(parse_status_code(line), Err(StatusLineError::InvalidCode), "{line:?}");
    }
}

fn by_the_standard_library(line: &str) -> Result<u16, StatusLineError> {
    let mut parts = line.split_whitespace();
    parts.next().ok_or(StatusLineError::MissingVersion)?;
    parts
        .next()
        .ok_or(StatusLineError::MissingCode)?
        .parse::<u16>()
        .map_err(|_| StatusLineError::InvalidCode)
}

#[test]
fn status_code_agrees_with_the_standard_library() {
    let pieces = [
        "", " ", "\t", "\u{2003}", "\u{85}", "\u{200b}", "HTTP/1.1", "+", "-", "0", "7", "200",
        "65535", "65536", "070", "x", "\u{e9}", "9",
    ];
    let mut checked = 0;
    for a in pieces {
        for b in pieces {
            for c in pieces {
                for d in pieces {
                    let line = format!("{a}{b}{c}{d}");
                    assert_eq!(parse_status_code(&line), by_the_standard_library(&line), "{line:?}");
                    checked += 1;
                }
            }
        }
    }
    assert_eq!(checked, 18 * 18 * 18 * 18);
    for n in 0..=70_000u32 {
        let line = format!("v {n}");
        assert_eq!(parse_status_code(&line), by_the_standard_library(&line));
    }
}

#[test]
fn white_space_is_that_of_the_standard_library() {
    let mut white = 0;
    for code in 0..=0x10FFFFu32 {
        if let Some(c) = char::from_u32(code) {
            assert_eq!(is_whitespace(c), c.is_whitespace(), "U+{code:04X}");
            if is_whitespace(c) {
                white += 1;
            }
        }
    }
    assert_eq!(white, 25);
}

#[test]
fn split_once_cuts_at_the_first_occurrence() {
    assert_eq!(split_once("a\r\nb\r\nc", "\r\n"), Some(("a", "b\r\nc")));
    assert_eq!(split_once("\r\n", "\r\n"), Some(("", "")));
    assert_eq!(split_once("abc", "\r\n"), None);
    assert_eq!(split_once("a\rb\nc\r", "\r\n"), None);
    assert_eq!(split_once("", "\r\n"), None);
    assert_eq!(split_once("\r\r\n\r\n\r\n", "\r\n\r\n"), Some(("\r", "\r\n")));
    assert_eq!(split_once("caf\u{e9}--\u{3000}x", "--"), Some(("caf\u{e9}", "\u{3000}x")));
    assert_eq!(split_once("abc", ""), Some(("", "abc")));
    assert_eq!(split_once("aaa", "aa"), Some(("", "a")));
    assert_eq!(split_once("ab", "abc"), None);
    for (text, pattern) in [("a\r\nb", "\r\n"), ("xyz", "z"), ("xyz", "q"), ("", ""), ("aXbXc", "X")] {
        assert_eq!(split_once(text, pattern), text.split_once(pattern));
    }
}

#[test]
fn a_response_that_reports_success_gives_its_body() {
    let response = "HTTP/1.1 200 OK\r\ncontent-type: application/json\r\ncontent-length: 62\r\n\r\n{\"time_left_secs\":5,\"time_left_hms\":\"00:00:05\",\"running\":true}";
    assert_eq!(
        parse_response(response),
        Ok("{\"time_left_secs\":5,\"time_left_hms\":\"00:00:05\",\"running\":true}".to_string())
    );
    assert_eq!(parse_response("HTTP/1.1 299 Odd\r\n\r\n\r\n"), Ok(String::new()));
    assert_eq!(parse_response("HTTP/1.1 299 Odd\r\n\r\n\r\n\r\n"), Ok("\r\n".to_string()));
    assert_eq!(parse_response("HTTP/1.1 204 No Content\r\nx: y\r\n\r\n"), Ok(String::new()));
    assert_eq!(parse_response("HTTP/1.1 200 OK\r\n\r\n\r\nbody\r\n\r\nmore"), Ok("body\r\n\r\nmore".to_string()));
}

#[test]
fn a_response_without_a_line_break() {
    assert_eq!(parse_response(""), Err(ClientError::MissingStatusLine));
    assert_eq!(parse_response("HTTP/1.1 200 OK"), Err(ClientError::MissingStatusLine));
    assert_eq!(parse_response("HTTP/1.1 200 OK\n\n{}"), Err(ClientError::MissingStatusLine));
}

#[test]
fn a_response_with_a_broken_status_line() {
    assert_eq!(
        parse_response("\r\n\r\n{}"),
        Err(ClientError::StatusLine(StatusLineError::MissingVersion))
    );
    assert_eq!(
        parse_response("HTTP/1.1\r\n\r\n{}"),
        Err(ClientError::StatusLine(StatusLineError::MissingCode))
    );
    assert_eq!(
        parse_response("HTTP/1.1 abc OK\r\nx: y\r\n\r\n{}"),
        Err(ClientError::StatusLine(StatusLineError::InvalidCode))
    );
    assert_eq!(
        parse_response("HTTP/1.1 abc OK\r\nno separator"),
        Err(ClientError::StatusLine(StatusLineError::InvalidCode))
    );
}

#[test]
fn a_response_without_an_empty_line() {
    assert_eq!(
        parse_response("HTTP/1.1 200 OK\r\ncontent-length: 2\r\n{}"),
        Err(ClientError::MissingBodySeparator)
    );
    assert_eq!(parse_response("HTTP/1.1 404 Not Found\r\n"), Err(ClientError::MissingBodySeparator));
    assert_eq!(parse_response("HTTP/1.1 200 OK\r\n\r\n"), Err(ClientError::MissingBodySeparator));
}

#[test]
fn a_response_that_reports_failure() {
    assert_eq!(
        parse_response("HTTP/1.1 404 Not Found\r\ncontent-type: application/json\r\n\r\n{\"error\":\"route not found\"}"),
        Err(ClientError::Server { status: 404, body: "{\"error\":\"route not found\"}".to_string() })
    );
    assert_eq!(
        parse_response("HTTP/1.1 199 Early\r\na: b\r\n\r\n"),
        Err(ClientError::Server { status: 199, body: String::new() })
    );
    assert_eq!(
        parse_response("HTTP/1.1 300 Multiple\r\na: b\r\n\r\nx"),
        Err(ClientError::Server { status: 300, body: "x".to_string() })
    );
}

#[test]
fn what_the_operator_is_told() {
    assert_eq!(
        ClientError::MissingStatusLine.message(),
        "malformed HTTP response: missing status line"
    );
    assert_eq!(
        ClientError::MissingBodySeparator.message(),
        "malformed HTTP response: missing body separator"
    );
    assert_eq!(
        ClientError::StatusLine(StatusLineError::MissingVersion).message(),
        "malformed status line: missing HTTP version"
    );
    assert_eq!(
        StatusLineError::MissingCode.message(),
        "malformed status line: missing status code"
    );
    assert_eq!(
        StatusLineError::InvalidCode.message(),
        "malformed status line: invalid status code"
    );
    assert_eq!(
        ClientError::Server { status: 400, body: "{\"error\":\"x\"}".to_string() }.message(),
        "server returned 400: {\"error\":\"x\"}"
    );
}

#[test]
fn a_request_without_a_body() {
    assert_eq!(
        build_request("GET", "/time_left", None),
        "GET /time_left HTTP/1.1\r\nHost: localhost\r\nConnection: close\r\n\r\n"
    );
    assert_eq!(
        build_request("POST", "/pause", Some(String::new())),
        "POST /pause HTTP/1.1\r\nHost: localhost\r\nConnection: close\r\n\r\n"
    );
}

#[test]
fn a_request_with_a_body() {
    assert_eq!(
        build_request("POST", "/start", Some("{\"seconds\":300}".to_string())),
        "POST /start HTTP/1.1\r\nHost: localhost\r\nConnection: close\r\nContent-Type: application/json\r\nContent-Length: 15\r\n\r\n{\"seconds\":300}"
    );
    assert_eq!(
        build_request("POST", "/extend", Some("caf\u{e9}".to_string())),
        "POST /extend HTTP/1.1\r\nHost: localhost\r\nConnection: close\r\nContent-Type: application/json\r\nContent-Length: 5\r\n\r\ncaf\u{e9}"
    );
}

#[test]
fn the_line_that_reports_a_snapshot() {
    let snapshot = TimerSnapshot {
        time_left_secs: 3661,
        time_left_hms: "01:01:01".to_string(),
        running: true,
    };
    assert_eq!(render_snapshot(&snapshot), "time_left=01:01:01 time_left_secs=3661 running=true");
    let snapshot =
        TimerSnapshot { time_left_secs: 0, time_left_hms: "00:00:00".to_string(), running: false };
    assert_eq!(render_snapshot(&snapshot), "time_left=00:00:00 time_left_secs=0 running=false");
}
