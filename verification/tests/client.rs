use ssip_client::client::{Client, MemoryStream, Poll, Token};
use ssip_client::nonblocking::AsyncClient;
use ssip_client::protocol::{Request, Response};
use ssip_client::text::split_lines;
use ssip_client::types::{ClientError, EventType, StatusLine};

fn lines_of(texts: &[&str]) -> Vec<String> {
    texts.iter().map(|s| s.to_string()).collect()
}

#[test]
fn test_split_lines() {
    let one_line = "one line\r\n";
    assert_eq!(&[one_line], split_lines(one_line).as_slice());
    assert_eq!(
        &["a\r\n", "b\r\n"],
        split_lines("a\r\nb\r\n").as_slice()
    );
}

#[test]
fn send_writes_full_wire_form() {
    let mut client = Client::new(MemoryStream::new(Vec::new()));
    client
        .send(&Request::Command("SET self RATE 10".to_string()))
        .unwrap();
    assert_eq!(
        &["SET self RATE 10\r\n"],
        client.source.sent_chunks().as_slice()
    );
}

#[test]
fn receive_decodes_one_response() {
    let stream = MemoryStream::new(split_lines("216 OK OUTPUT MODULE SET\r\n"));
    let mut client = Client::new(stream);
    match client.receive() {
        Ok(Response::Status(status)) => {
            assert_eq!(
                StatusLine { code: 216, message: "OK OUTPUT MODULE SET".to_string() },
                status
            );
        },
        other => panic!("expected a status, got {:?}", other),
    }
}

#[test]
fn receive_bundles_continuation_lines() {
    let stream = MemoryStream::new(split_lines("100-first\r\n100-second\r\n100 OK\r\n"));
    let mut client = Client::new(stream);
    match client.receive() {
        Ok(Response::Lines(lines, status)) => {
            assert_eq!(vec!["first".to_string(), "second".to_string()], lines);
            assert_eq!(StatusLine { code: 100, message: "OK".to_string() }, status);
        },
        other => panic!("expected bundled lines, got {:?}", other),
    }
}

#[test]
fn receive_surfaces_error_status() {
    let stream = MemoryStream::new(split_lines("409 ERR RATE TOO HIGH\r\n"));
    let mut client = Client::new(stream);
    match client.receive() {
        Err(ClientError::Ssip(status)) => {
            assert_eq!(
                StatusLine { code: 409, message: "ERR RATE TOO HIGH".to_string() },
                status
            );
        },
        other => panic!("expected a server error, got {:?}", other),
    }
}

#[test]
fn receive_reports_truncation() {
    let stream = MemoryStream::new(split_lines("100-first\r\n"));
    let mut client = Client::new(stream);
    assert!(matches!(
        client.receive(),
        Err(ClientError::TruncatedMessage)
    ));
}

#[test]
fn receive_two_responses_in_order() {
    let stream = MemoryStream::new(lines_of(&["200 OK A", "201 OK B"]));
    let mut client = Client::new(stream);
    match client.receive() {
        Ok(Response::Status(status)) => assert_eq!(200, status.code),
        other => panic!("expected a status, got {:?}", other),
    }
    match client.receive() {
        Ok(Response::Status(status)) => assert_eq!(201, status.code),
        other => panic!("expected a status, got {:?}", other),
    }
    assert!(matches!(
        client.receive(),
        Err(ClientError::TruncatedMessage)
    ));
}

#[test]
fn register_passes_through() {
    let mut client = Client::new(MemoryStream::new(Vec::new()));
    let poll = Poll {};
    assert!(client.register(&poll, Token(0), Token(1)).is_ok());
}

#[test]
fn queue_drains_in_push_order() {
    let mut nb = AsyncClient::new(Client::new(MemoryStream::new(Vec::new())));
    nb.push(Request::Command("ONE".to_string()));
    nb.push(Request::Command("TWO".to_string()));
    nb.push(Request::Command("THREE".to_string()));
    assert!(nb.has_next());
    nb.send_next().unwrap();
    nb.send_next().unwrap();
    nb.send_next().unwrap();
    assert!(!nb.has_next());
    assert_eq!(
        &["ONE\r\n", "TWO\r\n", "THREE\r\n"],
        nb.client.source.sent_chunks().as_slice()
    );
    // an empty queue drains as a no-op success
    nb.send_next().unwrap();
    assert_eq!(3, nb.client.source.sent_chunks().len());
}

#[test]
fn pop_and_last_touch_the_newest_request() {
    let mut nb = AsyncClient::new(Client::new(MemoryStream::new(Vec::new())));
    assert!(nb.last().is_none());
    assert!(nb.pop().is_none());
    nb.push(Request::Command("OLD".to_string()));
    nb.push(Request::Command("NEW".to_string()));
    match nb.last() {
        Some(Request::Command(c)) => assert_eq!("NEW", c),
        other => panic!("expected the newest request, got {:?}", other),
    }
    match nb.pop() {
        Some(Request::Command(c)) => assert_eq!("NEW", c),
        other => panic!("expected the newest request, got {:?}", other),
    }
    // transmission still drains the oldest end
    nb.send_next().unwrap();
    assert_eq!(&["OLD\r\n"], nb.client.source.sent_chunks().as_slice());
}

#[test]
fn receive_next_sees_events_and_statuses() {
    let stream = MemoryStream::new(lines_of(&["EVENT begin 21 7", "200 OK"]));
    let mut nb = AsyncClient::new(Client::new(stream));
    match nb.receive_next() {
        Ok(Response::Event(event)) => {
            assert!(matches!(event.ntype, EventType::Begin));
            assert_eq!("21", event.id.message);
            assert_eq!("7", event.id.client);
        },
        other => panic!("expected an event, got {:?}", other),
    }
    match nb.receive_next() {
        Ok(Response::Status(status)) => assert_eq!(200, status.code),
        other => panic!("expected a status, got {:?}", other),
    }
}

#[test]
fn buffered_lines_decide_without_transport() {
    // a complete response already buffered is returned even though the
    // transport has nothing more to offer
    let mut client = Client {
        source: MemoryStream::new(Vec::new()),
        pending: lines_of(&["200 OK"]),
    };
    match client.receive() {
        Ok(Response::Status(status)) => assert_eq!(200, status.code),
        other => panic!("expected a status, got {:?}", other),
    }
}

#[test]
fn send_text_body_through_client() {
    let mut client = Client::new(MemoryStream::new(Vec::new()));
    let request = Request::SendText(
        "SPEAK".to_string(),
        vec!["hello".to_string(), ".hidden".to_string()],
    );
    client.send(&request).unwrap();
    assert_eq!(
        &["SPEAK\r\nhello\r\n..hidden\r\n.\r\n"],
        client.source.sent_chunks().as_slice()
    );
}
