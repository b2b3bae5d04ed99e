use hecto::lsp::{
    pauses, read_inbound, Arrival, Inbound, LspConnector, Phase, Progress, POLL_INTERVAL_MS,
};
use hecto::protocol::Request;

fn connector() -> LspConnector {
    LspConnector::new(String::from("Rust"), String::from("home/me/main.rs"))
}

fn initialized_connector(text: &str) -> LspConnector {
    let mut c = connector();
    assert!(c.init(String::from(text)).is_some());
    let reply = String::from("{\"jsonrpc\":\"2.0\",\"id\":0,\"result\":{\"capabilities\":{}}}");
    assert!(matches!(c.receive(Inbound::Frame(reply)), Progress::Ready(_)));
    c
}

#[test]
fn new_connector_is_uninitialized() {
    let c = connector();
    assert!(!c.is_initialized());
    assert_eq!(c.phase(), Phase::Uninitialized);
}

#[test]
fn handshake_completes_on_the_reply() {
    let mut c = connector();
    let first = c.init(String::from("fn main() {}\r\n"));
    assert_eq!(first, Some(Request::initialize().to_frame()));
    assert_eq!(c.phase(), Phase::Handshaking);
    assert!(!c.is_initialized());
    let reply = String::from("{\"jsonrpc\":\"2.0\",\"id\":0,\"result\":{\"capabilities\":{}}}");
    let progress = c.receive(Inbound::Frame(reply));
    assert_eq!(
        progress,
        Progress::Ready(vec![
            Request::initialized().to_frame(),
            Request::did_open("file:///home/me/main.rs", "Rust", "fn main() {}\r\n").to_frame(),
        ])
    );
    assert!(c.is_initialized());
    assert_eq!(c.phase(), Phase::Initialized);
}

#[test]
fn handshake_frames_on_the_wire() {
    let mut c = LspConnector::new(String::from("C"), String::from("tmp/a.c"));
    let first = c.init(String::from("int x;")).unwrap();
    let body = "{\"jsonrpc\":\"2.0\",\"method\":\"initialize\",\"params\":{\"capabilities\":{\"textDocument\":{\"hover\":{\"contentFormat\":[\"plaintext\"]}}},\"processId\":null,\"rootUri\":null},\"id\":0}";
    assert_eq!(first, format!("Content-Length: {}\r\n\r\n{}", body.len(), body));
    let reply = String::from("{\"jsonrpc\":\"2.0\",\"id\":0,\"result\":{}}");
    match c.receive(Inbound::Frame(reply)) {
        Progress::Ready(frames) => {
            assert_eq!(frames.len(), 2);
            assert_eq!(
                frames[0],
                "Content-Length: 52\r\n\r\n{\"jsonrpc\":\"2.0\",\"method\":\"initialized\",\"params\":{}}"
            );
            let open = "{\"jsonrpc\":\"2.0\",\"method\":\"textDocument/didOpen\",\"params\":{\"textDocument\":{\"languageId\":\"C\",\"text\":\"int x;\",\"uri\":\"file:///tmp/a.c\",\"version\":0}}}";
            assert_eq!(frames[1], format!("Content-Length: {}\r\n\r\n{}", open.len(), open));
        },
        other => panic!("{:?}", other),
    }
}

#[test]
fn handshake_completes_on_an_error_reply_too() {
    let mut c = connector();
    c.init(String::from("x"));
    let reply = String::from("{\"jsonrpc\":\"2.0\",\"id\":0,\"error\":{\"code\":1,\"message\":\"m\"}}");
    assert!(matches!(c.receive(Inbound::Frame(reply)), Progress::Ready(_)));
    assert!(c.is_initialized());
}

#[test]
fn hover_gives_the_lines_of_the_reply() {
    let mut c = initialized_connector("text");
    let frame = c.hover(3, 5);
    assert_eq!(frame, Some(Request::hover("file:///home/me/main.rs", 3, 5).to_frame()));
    assert_eq!(c.phase(), Phase::Hovering);
    let reply = String::from(
        "{\"jsonrpc\":\"2.0\",\"id\":1,\"result\":{\"contents\":{\"kind\":\"markdown\",\"value\":\"foo\\nbar\"}}}",
    );
    let progress = c.receive(Inbound::Frame(reply));
    assert_eq!(progress, Progress::Hover(Some(vec![String::from("foo"), String::from("bar")])));
    assert_eq!(c.phase(), Phase::Initialized);
    assert!(c.is_initialized());
}

#[test]
fn hover_frame_on_the_wire() {
    let mut c = initialized_connector("text");
    let frame = c.hover(3, 5).unwrap();
    let body = "{\"jsonrpc\":\"2.0\",\"method\":\"textDocument/hover\",\"params\":{\"position\":{\"character\":5,\"line\":3},\"textDocument\":{\"uri\":\"file:///home/me/main.rs\"}},\"id\":1}";
    assert_eq!(frame, format!("Content-Length: {}\r\n\r\n{}", body.len(), body));
}

#[test]
fn hover_with_a_malformed_result_finds_nothing() {
    let mut c = initialized_connector("text");
    assert!(c.hover(3, 5).is_some());
    let reply = String::from("{\"jsonrpc\":\"2.0\",\"id\":1,\"result\":42}");
    assert_eq!(c.receive(Inbound::Frame(reply)), Progress::Hover(None));
    assert_eq!(c.phase(), Phase::Initialized);
}

#[test]
fn hover_with_an_error_reply_finds_nothing() {
    let mut c = initialized_connector("text");
    c.hover(0, 0);
    let reply = String::from("{\"jsonrpc\":\"2.0\",\"id\":1,\"error\":{\"code\":-32603,\"message\":\"boom\"}}");
    assert_eq!(c.receive(Inbound::Frame(reply)), Progress::Hover(None));
}

#[test]
fn hover_with_a_null_result_finds_nothing() {
    let mut c = initialized_connector("text");
    c.hover(0, 0);
    let reply = String::from("{\"jsonrpc\":\"2.0\",\"id\":1,\"result\":null}");
    assert_eq!(c.receive(Inbound::Frame(reply)), Progress::Hover(None));
}

#[test]
fn hover_with_an_empty_text_has_no_lines() {
    let mut c = initialized_connector("text");
    c.hover(0, 0);
    let reply = String::from(
        "{\"jsonrpc\":\"2.0\",\"id\":1,\"result\":{\"contents\":{\"kind\":\"plaintext\",\"value\":\"\"}}}",
    );
    assert_eq!(c.receive(Inbound::Frame(reply)), Progress::Hover(Some(vec![])));
}

#[test]
fn dead_transport_fails_the_handshake() {
    let mut c = connector();
    assert!(c.init(String::from("text")).is_some());
    assert_eq!(c.receive(Inbound::Empty), Progress::Waiting);
    assert_eq!(c.receive(Inbound::Closed), Progress::Failed);
    assert!(!c.is_initialized());
    assert_eq!(c.phase(), Phase::Uninitialized);
    assert_eq!(c.receive(Inbound::Closed), Progress::Idle);
}

#[test]
fn dead_transport_fails_the_hover() {
    let mut c = initialized_connector("text");
    assert!(c.hover(1, 1).is_some());
    assert_eq!(c.receive(Inbound::Closed), Progress::Failed);
    assert!(c.is_initialized());
    assert_eq!(c.phase(), Phase::Initialized);
}

#[test]
fn waiting_goes_on_while_the_queue_is_empty() {
    let mut c = connector();
    c.init(String::from("text"));
    for _ in 0..5 {
        assert_eq!(c.receive(Inbound::Empty), Progress::Waiting);
        assert_eq!(c.phase(), Phase::Handshaking);
    }
    let mut c = initialized_connector("text");
    c.hover(0, 0);
    for _ in 0..5 {
        assert_eq!(c.receive(Inbound::Empty), Progress::Waiting);
        assert_eq!(c.phase(), Phase::Hovering);
    }
}

#[test]
fn init_twice_performs_one_handshake() {
    let mut c = connector();
    assert!(c.init(String::from("one")).is_some());
    assert_eq!(c.init(String::from("two")), None);
    assert_eq!(c.phase(), Phase::Handshaking);
    let reply = String::from("{\"jsonrpc\":\"2.0\",\"id\":0,\"result\":{}}");
    match c.receive(Inbound::Frame(reply)) {
        Progress::Ready(frames) => {
            assert_eq!(frames[1], Request::did_open("file:///home/me/main.rs", "Rust", "one").to_frame());
        },
        other => panic!("{:?}", other),
    }
    assert_eq!(c.init(String::from("three")), None);
    assert!(c.is_initialized());
    assert_eq!(c.phase(), Phase::Initialized);
    assert_eq!(c.receive(Inbound::Empty), Progress::Idle);
}

#[test]
fn init_during_hover_changes_nothing() {
    let mut c = initialized_connector("text");
    c.hover(0, 0);
    assert_eq!(c.init(String::from("again")), None);
    assert_eq!(c.phase(), Phase::Hovering);
}

#[test]
fn hover_before_init_finds_nothing_at_once() {
    let mut c = connector();
    assert_eq!(c.hover(3, 5), None);
    assert_eq!(c.phase(), Phase::Uninitialized);
    assert!(!c.is_initialized());
    assert_eq!(c.receive(Inbound::Empty), Progress::Idle);
}

#[test]
fn hover_during_handshake_finds_nothing_at_once() {
    let mut c = connector();
    c.init(String::from("text"));
    assert_eq!(c.hover(3, 5), None);
    assert_eq!(c.phase(), Phase::Handshaking);
}

#[test]
fn hover_during_hover_sends_nothing() {
    let mut c = initialized_connector("text");
    assert!(c.hover(0, 0).is_some());
    assert_eq!(c.hover(1, 1), None);
    assert_eq!(c.phase(), Phase::Hovering);
}

#[test]
fn reply_with_a_stray_id_is_dropped_during_handshake() {
    let mut c = connector();
    c.init(String::from("text"));
    for stray in [
        "{\"jsonrpc\":\"2.0\",\"id\":1,\"result\":{}}",
        "{\"jsonrpc\":\"2.0\",\"id\":99,\"result\":{}}",
        "{\"jsonrpc\":\"2.0\",\"id\":-1,\"result\":{}}",
        "{\"jsonrpc\":\"2.0\",\"id\":\"0\",\"result\":{}}",
        "{\"jsonrpc\":\"2.0\",\"method\":\"window/logMessage\",\"params\":{\"type\":3,\"message\":\"hi\"}}",
        "{\"id\":0,\"result\":{}}",
        "garbage",
        "",
    ] {
        assert_eq!(c.receive(Inbound::Frame(String::from(stray))), Progress::Waiting, "{}", stray);
        assert_eq!(c.phase(), Phase::Handshaking);
    }
    let reply = String::from("{\"jsonrpc\":\"2.0\",\"id\":0,\"result\":{}}");
    assert!(matches!(c.receive(Inbound::Frame(reply)), Progress::Ready(_)));
}

#[test]
fn reply_with_a_stray_id_is_dropped_during_hover() {
    let mut c = initialized_connector("text");
    c.hover(3, 5);
    let stray = String::from(
        "{\"jsonrpc\":\"2.0\",\"id\":0,\"result\":{\"contents\":{\"kind\":\"markdown\",\"value\":\"wrong\"}}}",
    );
    assert_eq!(c.receive(Inbound::Frame(stray)), Progress::Waiting);
    assert_eq!(c.phase(), Phase::Hovering);
    let reply = String::from(
        "{\"jsonrpc\":\"2.0\",\"id\":1,\"result\":{\"contents\":{\"kind\":\"markdown\",\"value\":\"right\"}}}",
    );
    assert_eq!(c.receive(Inbound::Frame(reply)), Progress::Hover(Some(vec![String::from("right")])));
}

#[test]
fn frame_without_an_outstanding_request_is_dropped() {
    let mut c = connector();
    let frame = String::from("{\"jsonrpc\":\"2.0\",\"id\":0,\"result\":{}}");
    assert_eq!(c.receive(Inbound::Frame(frame)), Progress::Idle);
    assert_eq!(c.phase(), Phase::Uninitialized);
    let mut c = initialized_connector("text");
    let frame = String::from("{\"jsonrpc\":\"2.0\",\"id\":1,\"result\":{}}");
    assert_eq!(c.receive(Inbound::Frame(frame)), Progress::Idle);
    assert_eq!(c.phase(), Phase::Initialized);
}

#[test]
fn hover_can_be_asked_again_after_an_answer() {
    let mut c = initialized_connector("text");
    for (line, value) in [(0u32, "a"), (1, "b"), (2, "c")] {
        assert_eq!(c.hover(line, 0), Some(Request::hover("file:///home/me/main.rs", line, 0).to_frame()));
        let reply = format!(
            "{{\"jsonrpc\":\"2.0\",\"id\":1,\"result\":{{\"contents\":{{\"kind\":\"plaintext\",\"value\":\"{}\"}}}}}}",
            value
        );
        assert_eq!(c.receive(Inbound::Frame(reply)), Progress::Hover(Some(vec![String::from(value)])));
    }
}

#[test]
fn every_outgoing_frame_declares_the_length_of_its_body() {
    let mut frames = Vec::new();
    let mut c = LspConnector::new(String::from("Python"), String::from("home/zoë/prog ram.py"));
    frames.push(c.init(String::from("print('żółw')\r\n# 日本語\r\n")).unwrap());
    match c.receive(Inbound::Frame(String::from("{\"jsonrpc\":\"2.0\",\"id\":0,\"result\":{}}"))) {
        Progress::Ready(released) => frames.extend(released),
        other => panic!("{:?}", other),
    }
    frames.push(c.hover(7, 11).unwrap());
    assert_eq!(frames.len(), 4);
    for frame in frames {
        let (header, rest) = frame.split_once("\r\n").unwrap();
        let declared: usize = header.strip_prefix("Content-Length: ").unwrap().parse().unwrap();
        let body = rest.strip_prefix("\r\n").unwrap();
        assert_eq!(declared, body.len());
        assert!(serde_json::from_str::<serde_json::Value>(body).is_ok());
    }
}

#[test]
fn inbound_frames_are_read() {
    assert_eq!(read_inbound(Inbound::Empty), Arrival::Empty);
    assert_eq!(read_inbound(Inbound::Closed), Arrival::Closed);
    assert_eq!(read_inbound(Inbound::Frame(String::from("garbage"))), Arrival::Noise);
    assert_eq!(read_inbound(Inbound::Frame(String::from("{\"id\":1}"))), Arrival::Noise);
    assert_eq!(
        read_inbound(Inbound::Frame(String::from("{\"jsonrpc\":\"2.0\",\"id\":1,\"result\":42}"))),
        Arrival::Reply { id: Some(1), hover: None }
    );
    assert_eq!(
        read_inbound(Inbound::Frame(String::from(
            "{\"jsonrpc\":\"2.0\",\"result\":{\"contents\":{\"kind\":\"plaintext\",\"value\":\"a\\tb\"}}}"
        ))),
        Arrival::Reply { id: None, hover: Some(String::from("a\tb")) }
    );
}

#[test]
fn arrivals_are_taken() {
    let mut c = connector();
    assert_eq!(c.take(Arrival::Reply { id: Some(0), hover: None }), Progress::Idle);
    c.init(String::from("text"));
    assert_eq!(c.take(Arrival::Noise), Progress::Waiting);
    assert_eq!(c.take(Arrival::Empty), Progress::Waiting);
    assert_eq!(c.take(Arrival::Reply { id: None, hover: None }), Progress::Waiting);
    assert_eq!(c.take(Arrival::Reply { id: Some(1), hover: None }), Progress::Waiting);
    assert!(matches!(c.take(Arrival::Reply { id: Some(0), hover: Some(String::from("x")) }), Progress::Ready(_)));
    assert_eq!(c.phase(), Phase::Initialized);
    c.hover(0, 0);
    assert_eq!(c.take(Arrival::Reply { id: Some(0), hover: Some(String::from("x")) }), Progress::Waiting);
    assert_eq!(
        c.take(Arrival::Reply { id: Some(1), hover: Some(String::from("a\r\nb\n\nc")) }),
        Progress::Hover(Some(vec![String::from("a"), String::from("b"), String::new(), String::from("c")]))
    );
    c.hover(0, 0);
    assert_eq!(c.take(Arrival::Closed), Progress::Failed);
    assert_eq!(c.phase(), Phase::Initialized);
}

#[test]
fn connector_without_a_uri_sends_nothing() {
    let mut c = LspConnector::new(String::from("Rust"), String::from("/example.com:notaport/x"));
    let started = c.init(String::from("text"));
    if started.is_none() {
        assert_eq!(c.phase(), Phase::Uninitialized);
        assert_eq!(c.hover(0, 0), None);
    } else {
        assert_eq!(c.phase(), Phase::Handshaking);
    }
}

#[test]
fn caller_pauses_only_when_the_queue_was_empty() {
    assert!(pauses(&Inbound::Empty));
    assert!(!pauses(&Inbound::Closed));
    assert!(!pauses(&Inbound::Frame(String::from("garbage"))));
    assert!(!pauses(&Inbound::Frame(String::new())));
    assert_eq!(POLL_INTERVAL_MS, 100);
}

fn hover_call(c: &mut LspConnector, line: u32, character: u32, inbound: &[&str]) -> (Option<String>, Option<Vec<String>>) {
    let frame = c.hover(line, character);
    if frame.is_none() {
        return (None, None);
    }
    for text in inbound {
        match c.receive(Inbound::Frame(String::from(*text))) {
            Progress::Waiting => (),
            Progress::Hover(found) => return (frame, found),
            _ => return (frame, None),
        }
    }
    (frame, None)
}

#[test]
fn hover_is_determined_by_path_state_position_and_replies() {
    let inbound = [
        "{\"jsonrpc\":\"2.0\",\"method\":\"window/logMessage\",\"params\":{}}",
        "{\"jsonrpc\":\"2.0\",\"id\":0,\"result\":{}}",
        "{\"jsonrpc\":\"2.0\",\"id\":1,\"result\":{\"contents\":{\"kind\":\"markdown\",\"value\":\"one\\ntwo\"}}}",
        "{\"jsonrpc\":\"2.0\",\"id\":1,\"result\":{\"contents\":{\"kind\":\"markdown\",\"value\":\"late\"}}}",
    ];
    let reply = "{\"jsonrpc\":\"2.0\",\"id\":0,\"result\":{}}";
    let mut a = LspConnector::new(String::from("Rust"), String::from("home/me/main.rs"));
    let mut b = LspConnector::new(String::from("Plain text"), String::from("home/me/main.rs"));
    assert_eq!(hover_call(&mut a, 3, 5, &inbound), (None, None));
    assert_eq!(hover_call(&mut b, 3, 5, &inbound), (None, None));
    a.init(String::from("first text"));
    a.receive(Inbound::Frame(String::from(reply)));
    b.init(String::from("another text"));
    b.receive(Inbound::Empty);
    b.receive(Inbound::Frame(String::from(reply)));
    assert_eq!(a.is_initialized(), b.is_initialized());
    let from_a = hover_call(&mut a, 3, 5, &inbound);
    let from_b = hover_call(&mut b, 3, 5, &inbound);
    assert_eq!(from_a, from_b);
    assert!(from_a.0.is_some());
    assert_eq!(from_a.1, Some(vec![String::from("one"), String::from("two")]));
    assert_eq!(hover_call(&mut a, 0, 0, &inbound[..2]), hover_call(&mut b, 0, 0, &inbound[..2]));
}
