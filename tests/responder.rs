use ping_pong::body::extract_http_body;
use ping_pong::envelope::Envelope;
use ping_pong::handler::{
    build_response, handle_read, next_action, request_message, trim, Action, ReadOutcome,
    READ_BUFFER_SIZE,
};
use ping_pong::http::http_response;
use ping_pong::reply::{reply_for, respond};

const TS: &str = "2026-10-18T12:00:00.000000000+00:00";

fn post(body: &str) -> String {
    format!(
        "POST / HTTP/1.1\r\nHost: 127.0.0.1:8080\r\nContent-Length: {}\r\n\r\n{}",
        body.len(),
        body
    )
}

fn json_of(response: &str) -> serde_json::Value {
    let (_, doc) = response.split_once("\r\n\r\n").expect("no blank line");
    serde_json::from_str(doc).expect("body is not JSON")
}

fn output_for(body: &str) -> String {
    let v = json_of(&build_response(&post(body), TS));
    v["output"].as_str().unwrap().to_string()
}

#[test]
fn ping_gives_pong() {
    assert_eq!(output_for("ping"), "pong");
}

#[test]
fn upper_case_pong_gives_ping() {
    assert_eq!(output_for("PONG"), "ping");
}

#[test]
fn hello_gives_greeting() {
    assert_eq!(output_for("hello"), "Hello there!");
}

#[test]
fn unknown_word_is_echoed() {
    assert_eq!(output_for("banana"), "Echo: banana");
}

#[test]
fn help_lists_commands() {
    assert_eq!(output_for("HeLp"), "Commands: ping, pong, hello, help");
}

#[test]
fn echo_keeps_case() {
    assert_eq!(respond("BaNaNa"), "Echo: BaNaNa");
    assert_eq!(respond(""), "Echo: ");
    assert_eq!(respond("pings"), "Echo: pings");
}

#[test]
fn reply_table_by_lowered_form() {
    assert_eq!(reply_for("ping", "PiNg"), "pong");
    assert_eq!(reply_for("pong", "x"), "ping");
    assert_eq!(reply_for("hello", "x"), "Hello there!");
    assert_eq!(reply_for("help", "x"), "Commands: ping, pong, hello, help");
    assert_eq!(reply_for("PING", "PING"), "Echo: PING");
}

#[test]
fn empty_read_is_a_disconnect() {
    assert!(matches!(next_action(&ReadOutcome::Received(vec![]), TS), Action::Disconnected));
    assert!(matches!(handle_read(&ReadOutcome::Received(vec![])), Action::Disconnected));
}

#[test]
fn failed_read_is_abandoned() {
    assert!(matches!(next_action(&ReadOutcome::Failed, TS), Action::Abandon));
    assert!(matches!(handle_read(&ReadOutcome::Failed), Action::Abandon));
}

#[test]
fn two_connections_get_their_own_replies() {
    let a = next_action(&ReadOutcome::Received(post("ping").into_bytes()), TS);
    let b = next_action(&ReadOutcome::Received(post("banana").into_bytes()), TS);
    match (a, b) {
        (Action::Send(a), Action::Send(b)) => {
            let (a, b) = (json_of(&a), json_of(&b));
            assert_eq!(a["input"], "ping");
            assert_eq!(a["output"], "pong");
            assert_eq!(b["input"], "banana");
            assert_eq!(b["output"], "Echo: banana");
        }
        _ => panic!("both reads should be answered"),
    }
}

#[test]
fn envelope_round_trips_through_json() {
    let e = Envelope::new("say \"hi\"\n\\ ünï", "Echo: say \"hi\"", TS);
    let v: serde_json::Value = serde_json::from_str(&e.to_json()).unwrap();
    assert_eq!(v["input"], "say \"hi\"\n\\ ünï");
    assert_eq!(v["output"], "Echo: say \"hi\"");
    assert_eq!(v["timestamp"], TS);
}

#[test]
fn envelope_document_is_compact_and_sorted() {
    let e = Envelope::new("ping", "pong", "t");
    assert_eq!(e.to_json(), "{\"input\":\"ping\",\"output\":\"pong\",\"timestamp\":\"t\"}");
    let e = Envelope::new("a\"b", "", "t");
    assert_eq!(e.to_json(), "{\"input\":\"a\\\"b\",\"output\":\"\",\"timestamp\":\"t\"}");
}

#[test]
fn timestamp_is_current_rfc3339() {
    let before = chrono::Utc::now();
    match handle_read(&ReadOutcome::Received(post("ping").into_bytes())) {
        Action::Send(s) => {
            let v = json_of(&s);
            assert_eq!(v["output"], "pong");
            let t = chrono::DateTime::parse_from_rfc3339(v["timestamp"].as_str().unwrap())
                .unwrap();
            assert!(t >= before);
        }
        _ => panic!("a request should be answered"),
    }
}

#[test]
fn full_response_text() {
    let r = build_response(&post("ping"), "t");
    let doc = "{\"input\":\"ping\",\"output\":\"pong\",\"timestamp\":\"t\"}";
    let expected = format!(
        "HTTP/1.1 200 OK\r\nContent-Type: application/json\r\nAccess-Control-Allow-Origin: *\r\nAccess-Control-Allow-Methods: POST, GET, OPTIONS\r\nAccess-Control-Allow-Headers: Content-Type\r\nContent-Length: {}\r\nConnection: close\r\n\r\n{}",
        doc.len(),
        doc
    );
    assert_eq!(r, expected);
    assert_eq!(doc.len(), 48);
    assert!(r.contains("Content-Length: 48\r\n"));
}

#[test]
fn content_length_counts_bytes() {
    let r = http_response("é");
    assert!(r.contains("Content-Length: 2\r\n"));
    assert!(r.ends_with("\r\n\r\né"));
    assert!(http_response("").contains("Content-Length: 0\r\n"));
    let long = "x".repeat(1234);
    assert!(http_response(&long).contains("Content-Length: 1234\r\n"));
}

#[test]
fn body_after_crlf_separator() {
    assert_eq!(extract_http_body("GET / HTTP/1.1\r\nA: b\r\n\r\nhello\r\n\r\nmore"), "hello\r\n\r\nmore");
    assert_eq!(extract_http_body("H\r\n\r\n"), "");
}

#[test]
fn body_after_newline_separator() {
    assert_eq!(extract_http_body("GET /\nA: b\n\nping"), "ping");
    assert_eq!(extract_http_body("a\n\nb\n\nc"), "b\n\nc");
}

#[test]
fn crlf_separator_wins_over_newline_separator() {
    assert_eq!(extract_http_body("a\n\nb\r\n\r\nc"), "c");
}

#[test]
fn body_falls_back_to_last_line() {
    assert_eq!(extract_http_body("first\nsecond"), "second");
    assert_eq!(extract_http_body("first\nsecond\n"), "second");
    assert_eq!(extract_http_body("first\r\nsecond\r\n"), "second");
    assert_eq!(extract_http_body("first\nsecond\r"), "second\r");
    assert_eq!(extract_http_body("ping"), "ping");
    assert_eq!(extract_http_body(""), "");
    assert_eq!(extract_http_body("\n"), "");
}

#[test]
fn single_line_body_is_stable() {
    let once = extract_http_body("  ping  ");
    assert_eq!(once, "  ping  ");
    assert_eq!(extract_http_body(&once), once);
}

#[test]
fn message_is_trimmed_body() {
    assert_eq!(request_message("POST / HTTP/1.1\r\n\r\n  ping \r\n"), "ping");
    assert_eq!(trim("\u{3000}\t hi there \u{2003}"), "hi there");
    assert_eq!(trim("   "), "");
    assert_eq!(output_for("  PING\n"), "pong");
}

#[test]
fn invalid_bytes_are_replaced() {
    let mut bytes = b"POST / HTTP/1.1\r\n\r\nab".to_vec();
    bytes.push(0xff);
    match next_action(&ReadOutcome::Received(bytes), "t") {
        Action::Send(s) => assert_eq!(json_of(&s)["output"], "Echo: ab\u{fffd}"),
        _ => panic!("a request should be answered"),
    }
}

#[test]
fn read_buffer_size() {
    assert_eq!(READ_BUFFER_SIZE, 2048);
}
