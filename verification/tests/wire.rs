use hecto::text::{push_decimal, push_signed_decimal, read_length, split_lines};
use hecto::wire::{classify_header, frame, HeaderLine, PumpAction, PumpEvent, PumpState, SEPARATOR_LEN};

#[test]
fn frame_declares_the_byte_length_of_its_body() {
    assert_eq!(frame("{}"), "Content-Length: 2\r\n\r\n{}");
    assert_eq!(frame(""), "Content-Length: 0\r\n\r\n");
    assert_eq!(frame("0123456789"), "Content-Length: 10\r\n\r\n0123456789");
}

#[test]
fn frame_counts_bytes_not_characters() {
    assert_eq!(frame("é"), "Content-Length: 2\r\n\r\né");
    assert_eq!(frame("{\"a\":\"日本語\"}"), "Content-Length: 17\r\n\r\n{\"a\":\"日本語\"}");
    assert_eq!(frame("🇷🇺"), "Content-Length: 8\r\n\r\n🇷🇺");
}

#[test]
fn frame_header_is_read_back_as_the_body_length() {
    for body in ["", "x", "{\"jsonrpc\":\"2.0\"}", "žluťoučký kůň", "a\r\nb"] {
        let framed = frame(body);
        let end = framed.find("\r\n").unwrap() + 2;
        assert_eq!(classify_header(&framed[..end]), HeaderLine::Length(body.len()));
        assert_eq!(&framed[end..end + SEPARATOR_LEN], "\r\n");
        assert_eq!(&framed[end + SEPARATOR_LEN..], body);
    }
}

#[test]
fn decimal_numerals() {
    let mut out = String::from("n=");
    push_decimal(&mut out, 0);
    out.push(',');
    push_decimal(&mut out, 7);
    out.push(',');
    push_decimal(&mut out, 10);
    out.push(',');
    push_decimal(&mut out, 18446744073709551615);
    assert_eq!(out, "n=0,7,10,18446744073709551615");
}

#[test]
fn signed_decimal_numerals() {
    let mut out = String::new();
    push_signed_decimal(&mut out, -1);
    out.push(' ');
    push_signed_decimal(&mut out, 0);
    out.push(' ');
    push_signed_decimal(&mut out, 42);
    out.push(' ');
    push_signed_decimal(&mut out, i64::MIN);
    out.push(' ');
    push_signed_decimal(&mut out, i64::MAX);
    assert_eq!(out, "-1 0 42 -9223372036854775808 9223372036854775807");
}

#[test]
fn length_numerals_are_read_as_the_standard_library_reads_them() {
    for text in ["0", "7", "42", "+5", "007", "", "+", "-1", " 1", "1 ", "12a", "++1", "18446744073709551615",
        "18446744073709551616", "99999999999999999999999999"] {
        let bytes = text.as_bytes();
        assert_eq!(read_length(bytes, 0, bytes.len()), text.parse::<usize>().ok(), "{:?}", text);
    }
}

#[test]
fn length_numeral_inside_a_buffer() {
    let bytes = b"xx123yy";
    assert_eq!(read_length(bytes, 2, 5), Some(123));
    assert_eq!(read_length(bytes, 2, 2), None);
    assert_eq!(read_length(bytes, 1, 5), None);
}

#[test]
fn header_line_with_a_length() {
    assert_eq!(classify_header("Content-Length: 42\r\n"), HeaderLine::Length(42));
    assert_eq!(classify_header("content-length: 7\r\n"), HeaderLine::Length(7));
    assert_eq!(classify_header("CONTENT-LENGTH: 0\r\n"), HeaderLine::Length(0));
    assert_eq!(classify_header("cOnTeNt-LeNgTh: +5\r\n"), HeaderLine::Length(5));
}

#[test]
fn header_line_that_is_passed_over() {
    assert_eq!(classify_header("\r\n"), HeaderLine::Other);
    assert_eq!(classify_header(""), HeaderLine::Other);
    assert_eq!(classify_header("Content-Type: application/vscode-jsonrpc; charset=utf-8\r\n"), HeaderLine::Other);
    assert_eq!(classify_header("Content-Length:42\r\n"), HeaderLine::Other);
    assert_eq!(classify_header("Content-Length"), HeaderLine::Other);
    assert_eq!(classify_header(" Content-Length: 42\r\n"), HeaderLine::Other);
    assert_eq!(classify_header("Content_Length: 42\r\n"), HeaderLine::Other);
}

#[test]
fn header_line_that_is_malformed() {
    assert_eq!(classify_header("Content-Length: 42\n"), HeaderLine::Malformed);
    assert_eq!(classify_header("Content-Length: 42"), HeaderLine::Malformed);
    assert_eq!(classify_header("Content-Length: \r\n"), HeaderLine::Malformed);
    assert_eq!(classify_header("Content-Length: abc\r\n"), HeaderLine::Malformed);
    assert_eq!(classify_header("Content-Length: 4 2\r\n"), HeaderLine::Malformed);
    assert_eq!(classify_header("Content-Length: -1\r\n"), HeaderLine::Malformed);
    assert_eq!(classify_header("Content-Length: 99999999999999999999999999\r\n"), HeaderLine::Malformed);
    assert_eq!(classify_header("Content-Length: \r"), HeaderLine::Malformed);
}

#[test]
fn pump_reads_a_frame() {
    let mut pump = PumpState::new();
    assert_eq!(pump, PumpState::Header);
    assert_eq!(pump.step(PumpEvent::Line(String::from("Content-Type: x\r\n"))), PumpAction::ReadLine);
    assert_eq!(pump, PumpState::Header);
    assert_eq!(
        pump.step(PumpEvent::Line(String::from("Content-Length: 2\r\n"))),
        PumpAction::ReadBody { skip: 2, len: 2 }
    );
    assert_eq!(pump, PumpState::Body(2));
    assert_eq!(pump.step(PumpEvent::Body(b"{}".to_vec())), PumpAction::Deliver(String::from("{}")));
    assert_eq!(pump, PumpState::Header);
}

#[test]
fn pump_keeps_the_order_of_frames() {
    let mut pump = PumpState::new();
    let mut delivered = Vec::new();
    for body in ["first", "second", "third"] {
        let header = format!("Content-Length: {}\r\n", body.len());
        assert_eq!(pump.step(PumpEvent::Line(header)), PumpAction::ReadBody { skip: 2, len: body.len() });
        match pump.step(PumpEvent::Body(body.as_bytes().to_vec())) {
            PumpAction::Deliver(message) => delivered.push(message),
            other => panic!("{:?}", other),
        }
    }
    assert_eq!(delivered, vec!["first", "second", "third"]);
}

#[test]
fn pump_delivers_multibyte_text() {
    let mut pump = PumpState::Body(6);
    assert_eq!(pump.step(PumpEvent::Body("äöü".as_bytes().to_vec())), PumpAction::Deliver(String::from("äöü")));
}

#[test]
fn pump_stops_on_a_malformed_header() {
    let mut pump = PumpState::new();
    assert_eq!(pump.step(PumpEvent::Line(String::from("Content-Length: x\r\n"))), PumpAction::Stop);
    assert_eq!(pump, PumpState::Stopped);
}

#[test]
fn pump_stops_on_a_body_that_is_not_utf8() {
    let mut pump = PumpState::Body(2);
    assert_eq!(pump.step(PumpEvent::Body(vec![0xff, 0xfe])), PumpAction::Stop);
    assert_eq!(pump, PumpState::Stopped);
}

#[test]
fn pump_stops_on_a_body_of_the_wrong_length() {
    let mut pump = PumpState::Body(3);
    assert_eq!(pump.step(PumpEvent::Body(b"{}".to_vec())), PumpAction::Stop);
    assert_eq!(pump, PumpState::Stopped);
}

#[test]
fn pump_stops_when_the_stream_fails() {
    let mut pump = PumpState::new();
    assert_eq!(pump.step(PumpEvent::Failed), PumpAction::Stop);
    assert_eq!(pump, PumpState::Stopped);
    let mut pump = PumpState::Body(1);
    assert_eq!(pump.step(PumpEvent::Failed), PumpAction::Stop);
    assert_eq!(pump, PumpState::Stopped);
}

#[test]
fn pump_stops_on_what_it_did_not_ask_for() {
    let mut pump = PumpState::new();
    assert_eq!(pump.step(PumpEvent::Body(b"{}".to_vec())), PumpAction::Stop);
    let mut pump = PumpState::Body(2);
    assert_eq!(pump.step(PumpEvent::Line(String::from("Content-Length: 2\r\n"))), PumpAction::Stop);
}

#[test]
fn stopped_pump_stays_stopped() {
    let mut pump = PumpState::Stopped;
    assert_eq!(pump.step(PumpEvent::Line(String::from("Content-Length: 2\r\n"))), PumpAction::Stop);
    assert_eq!(pump.step(PumpEvent::Body(b"{}".to_vec())), PumpAction::Stop);
    assert_eq!(pump.step(PumpEvent::Failed), PumpAction::Stop);
    assert_eq!(pump, PumpState::Stopped);
}

#[test]
fn lines_are_split_as_the_standard_library_splits_them() {
    for text in ["", "a", "a\n", "a\nb", "a\r\nb", "a\r\n", "\n", "\n\n", "\r\n\r\n", "a\rb", "a\r", "a\r\n\rb\r",
        "foo\nbar", "x\n\ny", "\r", "\r\r\n", "日本\n語"] {
        let expected: Vec<String> = text.lines().map(String::from).collect();
        assert_eq!(split_lines(text), expected, "{:?}", text);
    }
}

#[test]
fn pump_delivers_what_was_framed() {
    let mut pump = PumpState::new();
    for body in ["{}", "", "žluťoučký kůň", "line\r\nline", "Content-Length: 3\r\n\r\nabc"] {
        let framed = frame(body);
        let end = framed.find("\r\n").unwrap() + 2;
        let action = pump.step(PumpEvent::Line(String::from(&framed[..end])));
        assert_eq!(action, PumpAction::ReadBody { skip: 2, len: body.len() });
        let rest = &framed.as_bytes()[end + 2..];
        assert_eq!(pump.step(PumpEvent::Body(rest.to_vec())), PumpAction::Deliver(String::from(body)));
        assert_eq!(pump, PumpState::Header);
    }
}
