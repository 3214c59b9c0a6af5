use ssip_client::protocol::{
    encode_request_text, escape_line, parse_event, parse_response, parse_status_line,
    unescape_line, ParseOutcome, Request, Response,
};
use ssip_client::types::{ClientError, EventType, StatusLine};

fn lines_of(texts: &[&str]) -> Vec<String> {
    texts.iter().map(|s| s.to_string()).collect()
}

#[test]
fn escape_round_trip() {
    for text in ["", "hello", ".hidden", "..twice", ". spaced", "a.b"] {
        let escaped = escape_line(text);
        assert_ne!(".", escaped.as_str());
        assert_eq!(text, unescape_line(escaped.as_str()).as_str());
    }
    assert_eq!("hello", escape_line("hello").as_str());
    assert_eq!("..hidden", escape_line(".hidden").as_str());
    assert_eq!("..", escape_line(".").as_str());
    assert_eq!(".x", unescape_line("..x").as_str());
}

#[test]
fn parse_single_status_line() {
    let (status, continuation) = parse_status_line("216 OK OUTPUT MODULE SET").unwrap();
    assert_eq!(
        StatusLine { code: 216, message: "OK OUTPUT MODULE SET".to_string() },
        status
    );
    assert!(!continuation);
    let (_, continuation) = parse_status_line("100-first").unwrap();
    assert!(continuation);
    assert!(matches!(
        parse_status_line("21"),
        Err(ClientError::InvalidType)
    ));
    assert!(matches!(
        parse_status_line("2x6 OK"),
        Err(ClientError::InvalidType)
    ));
}

#[test]
fn decode_single_line_response() {
    let outcome = parse_response(&lines_of(&["216 OK OUTPUT MODULE SET"]));
    match outcome {
        ParseOutcome::Done(Response::Status(status), consumed) => {
            assert_eq!(216, status.code);
            assert_eq!("OK OUTPUT MODULE SET", status.message);
            assert_eq!(1, consumed);
        },
        other => panic!("expected a lone status, got {:?}", other),
    }
}

#[test]
fn decode_multi_line_response() {
    let outcome = parse_response(&lines_of(&["100-first", "100-second", "100 OK"]));
    match outcome {
        ParseOutcome::Done(Response::Lines(lines, status), consumed) => {
            assert_eq!(vec!["first".to_string(), "second".to_string()], lines);
            assert_eq!(StatusLine { code: 100, message: "OK".to_string() }, status);
            assert_eq!(3, consumed);
        },
        other => panic!("expected bundled lines, got {:?}", other),
    }
}

#[test]
fn error_status_surfaces_as_error() {
    let outcome = parse_response(&lines_of(&["409 ERR RATE TOO HIGH"]));
    match outcome {
        ParseOutcome::Fail(ClientError::Ssip(status), consumed) => {
            assert_eq!(
                StatusLine { code: 409, message: "ERR RATE TOO HIGH".to_string() },
                status
            );
            assert_eq!(1, consumed);
        },
        other => panic!("expected an error status, got {:?}", other),
    }
}

#[test]
fn truncated_stream_needs_more() {
    assert!(matches!(
        parse_response(&lines_of(&["100-first"])),
        ParseOutcome::NeedMore
    ));
    assert!(matches!(parse_response(&Vec::new()), ParseOutcome::NeedMore));
}

#[test]
fn decode_data_body() {
    let outcome = parse_response(&lines_of(&[
        "251 OK DATA FOLLOWS",
        "hello world",
        "..dotted",
        ".",
    ]));
    match outcome {
        ParseOutcome::Done(Response::Data(lines, status, body), consumed) => {
            assert!(lines.is_empty());
            assert_eq!(251, status.code);
            assert_eq!(vec!["hello world".to_string(), ".dotted".to_string()], body);
            assert_eq!(4, consumed);
        },
        other => panic!("expected a data body, got {:?}", other),
    }
}

#[test]
fn unterminated_data_body_needs_more() {
    let outcome = parse_response(&lines_of(&["251 OK DATA FOLLOWS", "hello"]));
    assert!(matches!(outcome, ParseOutcome::NeedMore));
}

#[test]
fn decode_event_line() {
    let outcome = parse_response(&lines_of(&["EVENT begin 21 7"]));
    match outcome {
        ParseOutcome::Done(Response::Event(event), consumed) => {
            assert!(matches!(event.ntype, EventType::Begin));
            assert_eq!("21", event.id.message);
            assert_eq!("7", event.id.client);
            assert_eq!(1, consumed);
        },
        other => panic!("expected an event, got {:?}", other),
    }
    let mark = parse_event("EVENT index_mark 21 7 chapter2").unwrap();
    match mark.ntype {
        EventType::IndexMark(label) => assert_eq!("chapter2", label),
        _ => panic!("expected an index mark"),
    }
    assert!(matches!(
        parse_event("EVENT begin 21"),
        Err(ClientError::InvalidType)
    ));
}

#[test]
fn malformed_line_is_invalid() {
    assert!(matches!(
        parse_response(&lines_of(&["garbage"])),
        ParseOutcome::Fail(ClientError::InvalidType, 1)
    ));
}

#[test]
fn request_well_formedness() {
    assert!(Request::Command("LIST VOICES".to_string()).is_well_formed());
    assert!(!Request::Command("BAD\r\nLINE".to_string()).is_well_formed());
    assert!(
        Request::SendText("SPEAK".to_string(), vec!["ok".to_string(), ".".to_string()])
            .is_well_formed()
    );
    assert!(
        !Request::SendText("SPEAK".to_string(), vec!["bad\nline".to_string()]).is_well_formed()
    );
    assert!(!Request::SendText("SPE\rAK".to_string(), Vec::new()).is_well_formed());
}

#[test]
fn encode_single_command() {
    let text = encode_request_text(&Request::Command("LIST VOICES".to_string()));
    assert_eq!("LIST VOICES\r\n", text.as_str());
}

#[test]
fn encode_text_body_escapes_dots() {
    let request = Request::SendText(
        "SPEAK".to_string(),
        vec!["hello".to_string(), ".hidden".to_string(), ".".to_string()],
    );
    let text = encode_request_text(&request);
    assert_eq!("SPEAK\r\nhello\r\n..hidden\r\n..\r\n.\r\n", text.as_str());
}

#[test]
fn single_line_arity() {
    let one = Response::Lines(
        vec!["value".to_string()],
        StatusLine { code: 251, message: "OK".to_string() },
    );
    assert_eq!("value", one.single_line().unwrap());
    let none = Response::Status(StatusLine { code: 200, message: "OK".to_string() });
    assert!(matches!(none.single_line(), Err(ClientError::TooFewLines)));
    let two = Response::Lines(
        vec!["a".to_string(), "b".to_string()],
        StatusLine { code: 251, message: "OK".to_string() },
    );
    assert!(matches!(two.single_line(), Err(ClientError::TooManyLines)));
}

#[test]
fn status_line_renders_code_and_message() {
    let status = StatusLine { code: 216, message: "OK OUTPUT MODULE SET".to_string() };
    assert_eq!("216 OK OUTPUT MODULE SET", status.to_string().as_str());
    let status = StatusLine { code: 0, message: "ZERO".to_string() };
    assert_eq!("0 ZERO", status.to_string().as_str());
    let status = StatusLine { code: 65535, message: "MAX".to_string() };
    assert_eq!("65535 MAX", status.to_string().as_str());
}

#[test]
fn continuation_lines_before_error_status() {
    let outcome = parse_response(&lines_of(&["300-detail", "300 ERR INTERNAL"]));
    match outcome {
        ParseOutcome::Fail(ClientError::Ssip(status), consumed) => {
            assert_eq!(300, status.code);
            assert_eq!("ERR INTERNAL", status.message);
            assert_eq!(2, consumed);
        },
        other => panic!("expected a server error, got {:?}", other),
    }
}

#[test]
fn expect_code_checks_status() {
    let status = StatusLine { code: 216, message: "OK".to_string() };
    assert!(status.expect_code(216).is_ok());
    let status = StatusLine { code: 216, message: "OK".to_string() };
    match status.expect_code(200) {
        Err(ClientError::UnexpectedStatus(code)) => assert_eq!(216, code),
        other => panic!("expected an unexpected-status error, got {:?}", other),
    }
}
