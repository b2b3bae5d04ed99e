//! The wire format of the language-server protocol: every message travels as
//! `Content-Length: <decimal byte length>\r\n\r\n<body>`. This module writes
//! such frames and holds the decisions of the pump that reads them.

use vstd::prelude::*;
use vstd::string::*;
use vstd::utf8::*;
use crate::text::{
    decimal, is_digit_byte, lemma_decimal_is_digits, lemma_decimal_is_read_back, narrow,
    parse_length, push_decimal, read_length, string_from_utf8, unsigned_part,
};

verus! {

/// How many bytes separate a header line from the body: the empty line
/// `\r\n`.
pub const SEPARATOR_LEN: usize = 2;

/// The frame that carries `body`: the declared length is the number of bytes
/// of the body's UTF-8 encoding.
pub open spec fn frame_of(body: Seq<char>) -> Seq<char> {
    "Content-Length: "@ + decimal(encode_utf8(body).len()) + "\r\n\r\n"@ + body
}

/// Frames `body` for sending.
pub fn frame(body: &str) -> (out: String)
    ensures
        out@ == frame_of(body@),
{
    let length: usize = body.as_bytes().len();
    let mut out = String::from_str("Content-Length: ");
    push_decimal(&mut out, length as u64);
    out.append("\r\n\r\n");
    out.append(body);
    out
}

/// What a header line says.
#[derive(Clone, Copy, Debug, PartialEq, Eq, Structural)]
pub enum HeaderLine {
    /// Not a length header: the line is passed over.
    Other,
    /// A length header that announces a body of this many bytes.
    Length(usize),
    /// A length header that cannot be read.
    Malformed,
}

/// An ASCII capital letter as its small letter; every other byte as itself.
pub open spec fn ascii_lower(b: u8) -> u8 {
    if 65 <= b <= 90 {
        (b + 32) as u8
    } else {
        b
    }
}

/// The bytes of `content-length: `, the name of the length header with the
/// colon and the space that follow it.
pub open spec fn length_field() -> Seq<u8> {
    seq![99u8, 111, 110, 116, 101, 110, 116, 45, 108, 101, 110, 103, 116, 104, 58, 32]
}

/// Whether `line` starts with the length header's name, in any mix of
/// capital and small letters.
pub open spec fn names_length(line: Seq<u8>) -> bool {
    &&& line.len() >= 16
    &&& forall|i: int| 0 <= i < 16 ==> ascii_lower(#[trigger] line[i]) == length_field()[i]
}

/// What the header line `line` says. A line that does not start with the
/// length header's name is passed over. One that does must go on with a
/// numeral (see [`parse_length`]) and end in `\r\n`.
pub open spec fn classify(line: Seq<u8>) -> HeaderLine {
    if !names_length(line) {
        HeaderLine::Other
    } else if line.len() >= 18 && line[line.len() - 2] == 13 && line[line.len() - 1] == 10 {
        match parse_length(line.subrange(16, line.len() - 2)) {
            Some(n) => HeaderLine::Length(n),
            None => HeaderLine::Malformed,
        }
    } else {
        HeaderLine::Malformed
    }
}

/// Reads one header line, line terminator included.
pub fn classify_header(line: &str) -> (r: HeaderLine)
    ensures
        r == classify(encode_utf8(line@)),
{
    let bytes = line.as_bytes();
    let name: [u8; 16] = [99, 111, 110, 116, 101, 110, 116, 45, 108, 101, 110, 103, 116, 104, 58, 32];
    assert(name@ =~= length_field());
    if bytes.len() < 16 {
        return HeaderLine::Other;
    }
    let mut i: usize = 0;
    while i < 16
        invariant
            i <= 16 <= bytes.len(),
            bytes@ == encode_utf8(line@),
            name@ == length_field(),
            forall|k: int| 0 <= k < i ==> ascii_lower(#[trigger] bytes@[k]) == length_field()[k],
        decreases 16 - i,
    {
        let b: u8 = bytes[i];
        let low: u8 = if 65 <= b && b <= 90 {
            b + 32
        } else {
            b
        };
        if low != name[i] {
            assert(ascii_lower(bytes@[i as int]) != length_field()[i as int]);
            return HeaderLine::Other;
        }
        i += 1;
    }
    let n: usize = bytes.len();
    if n >= 18 && bytes[n - 2] == 13 && bytes[n - 1] == 10 {
        match read_length(bytes, 16, n - 2) {
            Some(length) => HeaderLine::Length(length),
            None => HeaderLine::Malformed,
        }
    } else {
        HeaderLine::Malformed
    }
}

/// Where the read pump stands.
#[derive(Clone, Copy, Debug, PartialEq, Eq, Structural)]
pub enum PumpState {
    /// Waiting for a header line.
    Header,
    /// A length header was read; waiting for a body of this many bytes.
    Body(usize),
    /// The pump has ended and reads nothing more.
    Stopped,
}

/// What the pump's reader hands back.
pub enum PumpEvent {
    /// One line, terminator included.
    Line(String),
    /// The bytes that were read as a body.
    Body(Vec<u8>),
    /// The stream ended or could not be read.
    Failed,
}

/// What the pump's reader does next.
#[derive(Debug, PartialEq, Eq)]
pub enum PumpAction {
    /// Read one line.
    ReadLine,
    /// Pass over `skip` bytes, then read exactly `len` bytes.
    ReadBody { skip: usize, len: usize },
    /// Hand this message to the session, then read one line.
    Deliver(String),
    /// End the pump.
    Stop,
}

/// A [`PumpAction`] with the message as a sequence of characters.
pub ghost enum PumpActionView {
    ReadLine,
    ReadBody { skip: usize, len: usize },
    Deliver(Seq<char>),
    Stop,
}

impl View for PumpAction {
    type V = PumpActionView;

    open spec fn view(&self) -> PumpActionView {
        match self {
            PumpAction::ReadLine => PumpActionView::ReadLine,
            PumpAction::ReadBody { skip, len } => PumpActionView::ReadBody {
                skip: *skip,
                len: *len,
            },
            PumpAction::Deliver(message) => PumpActionView::Deliver(message@),
            PumpAction::Stop => PumpActionView::Stop,
        }
    }
}

/// The pump's rule: from where it stands and what was read to where it goes
/// and what it does.
///
/// A header line that is no length header is passed over. A length header
/// asks for the body behind the separator. A body of the announced length
/// that is well-formed UTF-8 is delivered as it stands. Anything else ends
/// the pump.
pub open spec fn pump_next(state: PumpState, event: PumpEvent) -> (PumpState, PumpActionView) {
    match (state, event) {
        (PumpState::Header, PumpEvent::Line(line)) => match classify(encode_utf8(line@)) {
            HeaderLine::Other => (PumpState::Header, PumpActionView::ReadLine),
            HeaderLine::Length(n) => (
                PumpState::Body(n),
                PumpActionView::ReadBody { skip: SEPARATOR_LEN, len: n },
            ),
            HeaderLine::Malformed => (PumpState::Stopped, PumpActionView::Stop),
        },
        (PumpState::Body(n), PumpEvent::Body(bytes)) => if bytes@.len() == n && valid_utf8(
            bytes@,
        ) {
            (PumpState::Header, PumpActionView::Deliver(decode_utf8(bytes@)))
        } else {
            (PumpState::Stopped, PumpActionView::Stop)
        },
        _ => (PumpState::Stopped, PumpActionView::Stop),
    }
}

impl PumpState {
    /// The state in which a pump starts; its first action is to read a line.
    pub fn new() -> (state: PumpState)
        ensures
            state == PumpState::Header,
    {
        PumpState::Header
    }

    /// Takes what the reader handed back and says what to do next.
    pub fn step(&mut self, event: PumpEvent) -> (action: PumpAction)
        ensures
            (*final(self), action@) == pump_next(*old(self), event),
    {
        match (*self, event) {
            (PumpState::Header, PumpEvent::Line(line)) => match classify_header(line.as_str()) {
                HeaderLine::Other => PumpAction::ReadLine,
                HeaderLine::Length(n) => {
                    *self = PumpState::Body(n);
                    PumpAction::ReadBody { skip: SEPARATOR_LEN, len: n }
                },
                HeaderLine::Malformed => {
                    *self = PumpState::Stopped;
                    PumpAction::Stop
                },
            },
            (PumpState::Body(n), PumpEvent::Body(bytes)) => {
                if bytes.len() == n {
                    match string_from_utf8(bytes) {
                        Some(message) => {
                            *self = PumpState::Header;
                            PumpAction::Deliver(message)
                        },
                        None => {
                            *self = PumpState::Stopped;
                            PumpAction::Stop
                        },
                    }
                } else {
                    *self = PumpState::Stopped;
                    PumpAction::Stop
                }
            },
            _ => {
                *self = PumpState::Stopped;
                PumpAction::Stop
            },
        }
    }
}

/// A stopped pump stays stopped, whatever is handed to it.
pub proof fn lemma_stopped_pump_stays_stopped(event: PumpEvent)
    ensures
        pump_next(PumpState::Stopped, event) == (PumpState::Stopped, PumpActionView::Stop),
{
}

/// The header line of a frame whose body has `n` bytes.
pub open spec fn header_line(n: nat) -> Seq<char> {
    "Content-Length: "@ + decimal(n) + "\r\n"@
}

/// A frame is its header line, the separator and its body.
pub proof fn lemma_frame_is_header_separator_body(body: Seq<char>)
    ensures
        frame_of(body) == header_line(encode_utf8(body).len()) + "\r\n"@ + body,
{
    reveal_strlit("\r\n\r\n");
    reveal_strlit("\r\n");
    assert("\r\n\r\n"@ =~= "\r\n"@ + "\r\n"@);
    assert(frame_of(body) =~= header_line(encode_utf8(body).len()) + "\r\n"@ + body);
}

/// The header line that is written for a body of `n` bytes is read back as
/// a length header that announces `n` bytes.
pub proof fn lemma_header_is_read_back(n: nat)
    requires
        n <= usize::MAX,
    ensures
        classify(encode_utf8(header_line(n))) == HeaderLine::Length(n as usize),
{
    let name = "Content-Length: "@;
    let digits = decimal(n);
    let line = header_line(n);
    reveal_strlit("Content-Length: ");
    reveal_strlit("\r\n");
    lemma_decimal_is_digits(n);
    lemma_decimal_is_read_back(n);
    assert(line.len() == 16 + digits.len() + 2);
    assert forall|i: int| 0 <= i < line.len() implies '\0' <= #[trigger] line[i] <= '\u{7f}' by {
        if i < 16 {
            assert(line[i] == name[i]);
        } else if i < 16 + digits.len() {
            assert(line[i] == digits[i - 16]);
        } else {
            assert(line[i] == "\r\n"@[i - 16 - digits.len()]);
        }
    }
    is_ascii_chars_encode_utf8(line);
    let bytes = encode_utf8(line);
    assert forall|i: int| 0 <= i < 16 implies ascii_lower(#[trigger] bytes[i]) == length_field()[i] by {
        assert(bytes[i] == line[i] as u8);
        assert(line[i] == name[i]);
    }
    assert(bytes[bytes.len() - 2] == 13) by {
        assert(line[line.len() - 2] == "\r\n"@[0]);
    }
    assert(bytes[bytes.len() - 1] == 10) by {
        assert(line[line.len() - 1] == "\r\n"@[1]);
    }
    let numeral = bytes.subrange(16, bytes.len() - 2);
    assert(numeral =~= narrow(digits)) by {
        assert forall|i: int| 0 <= i < numeral.len() implies numeral[i] == narrow(digits)[i] by {
            assert(bytes[16 + i] == line[16 + i] as u8);
            assert(line[16 + i] == digits[i]);
        }
    }
    assert(unsigned_part(numeral) == numeral) by {
        assert(is_digit_byte(numeral[0]));
    }
}

/// The pump reads what was framed: after the header line of a frame it asks
/// for the body behind the separator, and the bytes of the body make it
/// deliver the body as it was framed.
pub proof fn lemma_pump_delivers_what_was_framed(body: Seq<char>, line: String, bytes: Vec<u8>)
    requires
        encode_utf8(body).len() <= usize::MAX,
        line@ == header_line(encode_utf8(body).len()),
        bytes@ == encode_utf8(body),
    ensures
        pump_next(PumpState::Header, PumpEvent::Line(line)) == (
            PumpState::Body(bytes@.len() as usize),
            PumpActionView::ReadBody { skip: SEPARATOR_LEN, len: bytes@.len() as usize },
        ),
        pump_next(PumpState::Body(bytes@.len() as usize), PumpEvent::Body(bytes)) == (
            PumpState::Header,
            PumpActionView::Deliver(body),
        ),
{
    lemma_header_is_read_back(encode_utf8(body).len());
    encode_utf8_valid_utf8(body);
    encode_utf8_decode_utf8(body);
}

} // verus!
