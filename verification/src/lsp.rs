//! The session with a language server, as a state machine. The connector
//! decides what is sent and what a reply means; whoever owns the server's
//! pipes sends the frames it hands out and feeds it what comes in.
//!
//! At most one request is in flight. A connector starts uninitialized; the
//! handshake (`initialize`, its reply, `initialized`, `textDocument/didOpen`)
//! makes it initialized, and it never goes back. Hover is answered only by
//! an initialized connector.

use vstd::prelude::*;
use vstd::string::*;
use crate::protocol::{
    did_open_params, document_uri, envelope, hover_params, hover_text_of, initialize_params,
    initialized_params, response_of, uri_of, Request, Response, HOVER_ID, INITIALIZE_ID,
};
use crate::text::{lemma_texts_push, lines, split_lines, texts};
use crate::wire::frame_of;

verus! {

/// Where a connector stands.
#[derive(Clone, Copy, Debug, PartialEq, Eq, Structural)]
pub enum Phase {
    /// No handshake has been completed and none is under way.
    Uninitialized,
    /// The handshake's request is sent; its reply is awaited.
    Handshaking,
    /// The handshake is done and no request is in flight.
    Initialized,
    /// A hover request is sent; its reply is awaited.
    Hovering,
}

/// What the inbound queue gave when it was asked.
pub enum Inbound {
    /// One message of the server.
    Frame(String),
    /// Nothing has arrived yet.
    Empty,
    /// The queue is closed for good: the read pump has ended.
    Closed,
}

/// What a connector makes of what the inbound queue gave.
#[derive(Debug, PartialEq, Eq)]
pub enum Progress {
    /// No reply is awaited: what came in is dropped.
    Idle,
    /// The awaited reply has not come: ask the queue again after a pause.
    Waiting,
    /// The handshake's reply has come: send these frames, in this order.
    Ready(Vec<String>),
    /// The hover reply has come: the lines of its text, if it has a text.
    Hover(Option<Vec<String>>),
    /// The transport is dead: the exchange is given up.
    Failed,
}

/// A [`Progress`] with its texts as sequences of characters.
pub ghost enum ProgressView {
    Idle,
    Waiting,
    Ready(Seq<Seq<char>>),
    Hover(Option<Seq<Seq<char>>>),
    Failed,
}

impl View for Progress {
    type V = ProgressView;

    open spec fn view(&self) -> ProgressView {
        match self {
            Progress::Idle => ProgressView::Idle,
            Progress::Waiting => ProgressView::Waiting,
            Progress::Ready(frames) => ProgressView::Ready(texts(frames@)),
            Progress::Hover(Some(found)) => ProgressView::Hover(Some(texts(found@))),
            Progress::Hover(None) => ProgressView::Hover(None),
            Progress::Failed => ProgressView::Failed,
        }
    }
}

/// The pause between two looks at an empty inbound queue, in milliseconds.
pub const POLL_INTERVAL_MS: u64 = 100;

/// Whether the caller pauses before it asks the inbound queue again: only
/// when the queue was empty. A frame that was dropped is followed by the
/// next look at once.
pub fn pauses(inbound: &Inbound) -> (b: bool)
    ensures
        b == (*inbound is Empty),
{
    match inbound {
        Inbound::Empty => true,
        _ => false,
    }
}

/// What came in from the inbound queue, as far as the session reads it.
#[derive(Debug, PartialEq, Eq)]
pub enum Arrival {
    /// A reply, with the identifier and the hover text that it carries.
    Reply { id: Option<i64>, hover: Option<String> },
    /// A frame that is no reply.
    Noise,
    /// Nothing has arrived yet.
    Empty,
    /// The queue is closed for good.
    Closed,
}

/// An [`Arrival`] with its text as a sequence of characters.
pub ghost enum ArrivalView {
    Reply { id: Option<i64>, hover: Option<Seq<char>> },
    Noise,
    Empty,
    Closed,
}

impl View for Arrival {
    type V = ArrivalView;

    open spec fn view(&self) -> ArrivalView {
        match self {
            Arrival::Reply { id, hover } => ArrivalView::Reply {
                id: *id,
                hover: match hover {
                    Some(text) => Some(text@),
                    None => None,
                },
            },
            Arrival::Noise => ArrivalView::Noise,
            Arrival::Empty => ArrivalView::Empty,
            Arrival::Closed => ArrivalView::Closed,
        }
    }
}

/// The session with one language server, about one document.
pub struct LspConnector {
    phase: Phase,
    lang: String,
    filename: String,
    pending: Vec<String>,
}

/// The state of an [`LspConnector`].
pub ghost struct ConnectorView {
    /// Where the connector stands.
    pub phase: Phase,
    /// The language identifier of the document.
    pub lang: Seq<char>,
    /// The absolute path of the document.
    pub filename: Seq<char>,
    /// The frames that are held back until the handshake's reply arrives.
    pub pending: Seq<Seq<char>>,
}

impl View for LspConnector {
    type V = ConnectorView;

    closed spec fn view(&self) -> ConnectorView {
        ConnectorView {
            phase: self.phase,
            lang: self.lang@,
            filename: self.filename@,
            pending: texts(self.pending@),
        }
    }
}

/// The frame of the handshake's request.
pub open spec fn initialize_frame() -> Seq<char> {
    frame_of(envelope("initialize"@, Some(initialize_params()), Some(INITIALIZE_ID)))
}

/// The frame of the notification that ends the handshake.
pub open spec fn initialized_frame() -> Seq<char> {
    frame_of(envelope("initialized"@, Some(initialized_params()), None))
}

/// The frame of the notification that opens the document.
pub open spec fn did_open_frame(uri: Seq<char>, lang: Seq<char>, text: Seq<char>) -> Seq<char> {
    frame_of(envelope("textDocument/didOpen"@, Some(did_open_params(uri, lang, text)), None))
}

/// The frame of a hover request.
pub open spec fn hover_frame(uri: Seq<char>, line: u32, character: u32) -> Seq<char> {
    frame_of(envelope("textDocument/hover"@, Some(hover_params(uri, line, character)), Some(HOVER_ID)))
}

/// Whether the frame `text` is the reply to the request `id`: it reads as a
/// reply and carries that identifier.
pub open spec fn answers(text: Seq<char>, id: i32) -> bool {
    match response_of(text) {
        Some(reply) => reply.id == Some(id as i64),
        None => false,
    }
}

/// What a hover reply in the frame `text` gives the editor: the lines of
/// its text.
pub open spec fn hover_lines_of(text: Seq<char>) -> Option<Seq<Seq<char>>> {
    match response_of(text) {
        Some(reply) => match hover_text_of(reply) {
            Some(found) => Some(lines(found)),
            None => None,
        },
        None => None,
    }
}

/// What the inbound queue gave, as the session reads it: a frame that
/// reads as a reply is one, with its identifier and its hover text; any
/// other frame is noise.
pub open spec fn arrival_of(inbound: Inbound) -> ArrivalView {
    match inbound {
        Inbound::Frame(text) => match response_of(text@) {
            Some(reply) => ArrivalView::Reply { id: reply.id, hover: hover_text_of(reply) },
            None => ArrivalView::Noise,
        },
        Inbound::Empty => ArrivalView::Empty,
        Inbound::Closed => ArrivalView::Closed,
    }
}

/// Whether what came in is the reply to the request `id`.
pub open spec fn replies_to(arrival: ArrivalView, id: i32) -> bool {
    match arrival {
        ArrivalView::Reply { id: carried, .. } => carried == Some(id as i64),
        _ => false,
    }
}

/// What a hover reply gives the editor: the lines of its text.
pub open spec fn hover_lines(arrival: ArrivalView) -> Option<Seq<Seq<char>>> {
    match arrival {
        ArrivalView::Reply { hover: Some(found), .. } => Some(lines(found)),
        _ => None,
    }
}

/// The rule of `init`: an uninitialized connector whose document has a URI
/// starts the handshake: it hands out the `initialize` request and holds the
/// two notifications back. Every other connector stays as it is and hands
/// out nothing.
pub open spec fn init_next(c: ConnectorView, text: Seq<char>) -> (ConnectorView, Option<Seq<char>>) {
    match (c.phase, document_uri(c.filename)) {
        (Phase::Uninitialized, Some(uri)) => (
            ConnectorView {
                phase: Phase::Handshaking,
                pending: seq![initialized_frame(), did_open_frame(uri, c.lang, text)],
                ..c
            },
            Some(initialize_frame()),
        ),
        _ => (c, None),
    }
}

/// The rule of `hover`: an initialized connector whose document has a URI
/// hands out a hover request and waits for its reply. Every other connector
/// stays as it is and hands out nothing: there is no hover information.
pub open spec fn hover_next(c: ConnectorView, line: u32, character: u32) -> (
    ConnectorView,
    Option<Seq<char>>,
) {
    match (c.phase, document_uri(c.filename)) {
        (Phase::Initialized, Some(uri)) => (
            ConnectorView { phase: Phase::Hovering, ..c },
            Some(hover_frame(uri, line, character)),
        ),
        _ => (c, None),
    }
}

/// The rule of `take`. A connector that awaits no reply drops what comes
/// in. One that awaits a reply goes on waiting until the reply to its
/// request comes in; whatever else comes in is dropped. The handshake's
/// reply makes the connector initialized and releases the frames held back.
/// The hover reply gives the lines of its text. A closed queue ends the
/// exchange: the handshake is undone, a hover has no answer.
pub open spec fn take_next(c: ConnectorView, arrival: ArrivalView) -> (ConnectorView, ProgressView) {
    match c.phase {
        Phase::Uninitialized | Phase::Initialized => (c, ProgressView::Idle),
        Phase::Handshaking => if replies_to(arrival, INITIALIZE_ID) {
            (
                ConnectorView { phase: Phase::Initialized, pending: Seq::empty(), ..c },
                ProgressView::Ready(c.pending),
            )
        } else if arrival is Closed {
            (
                ConnectorView { phase: Phase::Uninitialized, pending: Seq::empty(), ..c },
                ProgressView::Failed,
            )
        } else {
            (c, ProgressView::Waiting)
        },
        Phase::Hovering => if replies_to(arrival, HOVER_ID) {
            (
                ConnectorView { phase: Phase::Initialized, ..c },
                ProgressView::Hover(hover_lines(arrival)),
            )
        } else if arrival is Closed {
            (ConnectorView { phase: Phase::Initialized, ..c }, ProgressView::Failed)
        } else {
            (c, ProgressView::Waiting)
        },
    }
}

/// The rule of `receive`: what came in is read, and then taken; see
/// [`arrival_of`] and [`take_next`].
pub open spec fn receive_next(c: ConnectorView, inbound: Inbound) -> (ConnectorView, ProgressView) {
    take_next(c, arrival_of(inbound))
}

/// The view of a frame that may be absent.
pub open spec fn frame_view(frame: Option<String>) -> Option<Seq<char>> {
    match frame {
        Some(f) => Some(f@),
        None => None,
    }
}

/// Reads what the inbound queue gave; see [`arrival_of`].
pub fn read_inbound(inbound: Inbound) -> (arrival: Arrival)
    ensures
        arrival@ == arrival_of(inbound),
{
    match inbound {
        Inbound::Frame(text) => match Response::parse(text.as_str()) {
            Some(reply) => {
                let hover = reply.hover_text();
                Arrival::Reply { id: reply.id, hover }
            },
            None => Arrival::Noise,
        },
        Inbound::Empty => Arrival::Empty,
        Inbound::Closed => Arrival::Closed,
    }
}

fn carries(arrival: &Arrival, id: i32) -> (b: bool)
    ensures
        b == replies_to(arrival@, id),
{
    match arrival {
        Arrival::Reply { id: Some(n), .. } => *n == id as i64,
        _ => false,
    }
}

impl LspConnector {
    /// A connector for the document at the absolute path `filename`, written
    /// in the language `lang`. It is uninitialized and has sent nothing.
    pub fn new(lang: String, filename: String) -> (c: LspConnector)
        ensures
            c@ == (ConnectorView {
                phase: Phase::Uninitialized,
                lang: lang@,
                filename: filename@,
                pending: Seq::empty(),
            }),
    {
        let c = LspConnector { phase: Phase::Uninitialized, lang, filename, pending: Vec::new() };
        assert(texts(c.pending@) =~= Seq::<Seq<char>>::empty());
        c
    }

    /// Whether the handshake has been completed.
    pub fn is_initialized(&self) -> (b: bool)
        ensures
            b == (self@.phase == Phase::Initialized || self@.phase == Phase::Hovering),
    {
        match self.phase {
            Phase::Initialized | Phase::Hovering => true,
            _ => false,
        }
    }

    /// Where the connector stands.
    pub fn phase(&self) -> (p: Phase)
        ensures
            p == self@.phase,
    {
        self.phase
    }

    /// Starts the handshake for a document whose full text is
    /// `current_text`, and hands out the frame to send. Hands out nothing,
    /// and changes nothing, unless the connector is uninitialized; see
    /// [`init_next`].
    pub fn init(&mut self, current_text: String) -> (frame: Option<String>)
        ensures
            (final(self)@, frame_view(frame)) == init_next(old(self)@, current_text@),
    {
        match self.phase {
            Phase::Uninitialized => {},
            _ => {
                return None;
            },
        }
        match uri_of(self.filename.as_str()) {
            Some(uri) => {
                let mut pending: Vec<String> = Vec::new();
                let first = Request::initialized().to_frame();
                let second = Request::did_open(
                    uri.as_str(),
                    self.lang.as_str(),
                    current_text.as_str(),
                ).to_frame();
                proof {
                    lemma_texts_push(pending@, first);
                    lemma_texts_push(pending@.push(first), second);
                    assert(texts(pending@.push(first).push(second)) =~= seq![first@, second@]);
                }
                pending.push(first);
                pending.push(second);
                self.pending = pending;
                self.phase = Phase::Handshaking;
                Some(Request::initialize().to_frame())
            },
            None => None,
        }
    }

    /// Starts a hover exchange for the position `line`, `character`, both
    /// counted from zero, and hands out the frame to send. Hands out
    /// nothing, and changes nothing, unless the connector is initialized and
    /// idle: then there is no hover information; see [`hover_next`].
    pub fn hover(&mut self, line: u32, character: u32) -> (frame: Option<String>)
        ensures
            (final(self)@, frame_view(frame)) == hover_next(old(self)@, line, character),
    {
        match self.phase {
            Phase::Initialized => {},
            _ => {
                return None;
            },
        }
        match uri_of(self.filename.as_str()) {
            Some(uri) => {
                self.phase = Phase::Hovering;
                Some(Request::hover(uri.as_str(), line, character).to_frame())
            },
            None => None,
        }
    }

    /// Takes what came in and says how the exchange stands; see
    /// [`take_next`].
    pub fn take(&mut self, arrival: Arrival) -> (progress: Progress)
        ensures
            (final(self)@, progress@) == take_next(old(self)@, arrival@),
    {
        match self.phase {
            Phase::Uninitialized | Phase::Initialized => Progress::Idle,
            Phase::Handshaking => {
                if carries(&arrival, INITIALIZE_ID) {
                    let mut released: Vec<String> = Vec::new();
                    assert(texts(released@) =~= Seq::<Seq<char>>::empty());
                    std::mem::swap(&mut self.pending, &mut released);
                    self.phase = Phase::Initialized;
                    Progress::Ready(released)
                } else {
                    match arrival {
                        Arrival::Closed => {
                            self.pending = Vec::new();
                            assert(texts(self.pending@) =~= Seq::<Seq<char>>::empty());
                            self.phase = Phase::Uninitialized;
                            Progress::Failed
                        },
                        _ => Progress::Waiting,
                    }
                }
            },
            Phase::Hovering => {
                if carries(&arrival, HOVER_ID) {
                    self.phase = Phase::Initialized;
                    match arrival {
                        Arrival::Reply { hover: Some(found), .. } => Progress::Hover(
                            Some(split_lines(found.as_str())),
                        ),
                        _ => Progress::Hover(None),
                    }
                } else {
                    match arrival {
                        Arrival::Closed => {
                            self.phase = Phase::Initialized;
                            Progress::Failed
                        },
                        _ => Progress::Waiting,
                    }
                }
            },
        }
    }

    /// Takes what the inbound queue gave and says how the exchange stands;
    /// see [`receive_next`].
    pub fn receive(&mut self, inbound: Inbound) -> (progress: Progress)
        ensures
            (final(self)@, progress@) == receive_next(old(self)@, inbound),
    {
        let arrival = read_inbound(inbound);
        self.take(arrival)
    }
}

/// The identifier of the request whose reply the connector awaits, if it
/// awaits one.
pub open spec fn awaited(c: ConnectorView) -> Option<i32> {
    match c.phase {
        Phase::Handshaking => Some(INITIALIZE_ID),
        Phase::Hovering => Some(HOVER_ID),
        _ => None,
    }
}

/// Whether the handshake has been completed.
pub open spec fn initialized(c: ConnectorView) -> bool {
    c.phase == Phase::Initialized || c.phase == Phase::Hovering
}

/// The two notifications that the handshake holds back.
pub open spec fn held_back(uri: Seq<char>, lang: Seq<char>, text: Seq<char>) -> Seq<Seq<char>> {
    seq![initialized_frame(), did_open_frame(uri, lang, text)]
}

/// The invariant of a connector: during the handshake it holds back the two
/// notifications for its document, and at no other time any frame.
pub open spec fn well_formed(c: ConnectorView) -> bool {
    if c.phase == Phase::Handshaking {
        match document_uri(c.filename) {
            Some(uri) => exists|text: Seq<char>| c.pending == #[trigger] held_back(uri, c.lang, text),
            None => false,
        }
    } else {
        c.pending.len() == 0
    }
}

/// Whether `frame` is a header that declares a length, the separator, and a
/// body whose UTF-8 encoding has exactly that many bytes.
pub open spec fn declares_body_length(frame: Seq<char>) -> bool {
    exists|body: Seq<char>| frame == #[trigger] frame_of(body)
}

/// A new connector is well formed, and every step keeps a connector well
/// formed.
pub proof fn lemma_steps_keep_well_formed(
    c: ConnectorView,
    text: Seq<char>,
    line: u32,
    character: u32,
    inbound: Inbound,
)
    requires
        well_formed(c),
    ensures
        well_formed(init_next(c, text).0),
        well_formed(hover_next(c, line, character).0),
        well_formed(receive_next(c, inbound).0),
{
    match (c.phase, document_uri(c.filename)) {
        (Phase::Uninitialized, Some(uri)) => {
            let started = init_next(c, text).0;
            assert(started.pending == held_back(uri, started.lang, text));
            assert(document_uri(started.filename) == Some(uri));
            assert(well_formed(started));
        },
        (Phase::Uninitialized, None) => {
            assert(init_next(c, text).0 == c);
        },
        _ => {
            assert(init_next(c, text).0 == c);
        },
    }
}

/// Every frame that a well-formed connector hands out declares, as its
/// content length, the exact number of bytes of the body that follows.
pub proof fn lemma_outgoing_frames_declare_body_length(
    c: ConnectorView,
    text: Seq<char>,
    line: u32,
    character: u32,
    inbound: Inbound,
)
    requires
        well_formed(c),
    ensures
        init_next(c, text).1 matches Some(frame) ==> declares_body_length(frame),
        hover_next(c, line, character).1 matches Some(frame) ==> declares_body_length(frame),
        receive_next(c, inbound).1 matches ProgressView::Ready(frames) ==> forall|i: int|
            0 <= i < frames.len() ==> declares_body_length(#[trigger] frames[i]),
{
    if init_next(c, text).1 is Some {
        assert(initialize_frame() == frame_of(
            envelope("initialize"@, Some(initialize_params()), Some(INITIALIZE_ID)),
        ));
    }
    match (c.phase, document_uri(c.filename)) {
        (Phase::Initialized, Some(uri)) => {
            assert(hover_frame(uri, line, character) == frame_of(
                envelope(
                    "textDocument/hover"@,
                    Some(hover_params(uri, line, character)),
                    Some(HOVER_ID),
                ),
            ));
        },
        (Phase::Handshaking, Some(uri)) => {
            let held = choose|held: Seq<char>| c.pending == #[trigger] held_back(uri, c.lang, held);
            assert(c.pending[0] == frame_of(
                envelope("initialized"@, Some(initialized_params()), None),
            ));
            assert(c.pending[1] == frame_of(
                envelope(
                    "textDocument/didOpen"@,
                    Some(did_open_params(uri, c.lang, held)),
                    None,
                ),
            ));
        },
        _ => {},
    }
}

/// `init` is idempotent: a second call, whatever text it brings, changes
/// nothing and hands out nothing.
pub proof fn lemma_init_is_idempotent(c: ConnectorView, first: Seq<char>, second: Seq<char>)
    ensures
        init_next(init_next(c, first).0, second) == (init_next(c, first).0, None::<Seq<char>>),
{
}

/// A handshake runs once: an uninitialized connector hands out the
/// `initialize` request, the reply makes it initialized and releases the two
/// notifications, in order, and `init` after that changes nothing and hands
/// out nothing.
pub proof fn lemma_handshake_runs_once(
    c: ConnectorView,
    text: Seq<char>,
    reply: String,
    again: Seq<char>,
)
    requires
        c.phase == Phase::Uninitialized,
        document_uri(c.filename) is Some,
        answers(reply@, INITIALIZE_ID),
    ensures
        init_next(c, text).1 == Some(initialize_frame()),
        ({
            let started = init_next(c, text).0;
            let done = receive_next(started, Inbound::Frame(reply));
            &&& done.0.phase == Phase::Initialized
            &&& done.1 == ProgressView::Ready(
                held_back(document_uri(c.filename)->0, c.lang, text),
            )
            &&& init_next(done.0, again) == (done.0, None::<Seq<char>>)
        }),
{
}

/// An initialized connector stays initialized, whatever step it takes.
pub proof fn lemma_initialized_is_kept(
    c: ConnectorView,
    text: Seq<char>,
    line: u32,
    character: u32,
    inbound: Inbound,
)
    requires
        initialized(c),
    ensures
        initialized(init_next(c, text).0),
        initialized(hover_next(c, line, character).0),
        initialized(receive_next(c, inbound).0),
{
}

/// Hover before the handshake is done finds nothing, at once: no frame is
/// handed out and the connector stays as it is.
pub proof fn lemma_hover_needs_handshake(c: ConnectorView, line: u32, character: u32)
    requires
        !initialized(c),
    ensures
        hover_next(c, line, character) == (c, None::<Seq<char>>),
{
}

/// A frame that does not answer the request in flight is dropped: the
/// connector stays as it is, and goes on waiting if it was waiting.
pub proof fn lemma_stray_frame_is_dropped(c: ConnectorView, frame: String)
    requires
        awaited(c) matches Some(id) ==> !answers(frame@, id),
    ensures
        receive_next(c, Inbound::Frame(frame)) == (
            c,
            if awaited(c) is Some {
                ProgressView::Waiting
            } else {
                ProgressView::Idle
            },
        ),
{
}

/// A closed queue ends the wait: the exchange fails and the connector awaits
/// nothing any more.
pub proof fn lemma_closed_queue_ends_the_wait(c: ConnectorView)
    requires
        awaited(c) is Some,
    ensures
        receive_next(c, Inbound::Closed).1 == ProgressView::Failed,
        awaited(receive_next(c, Inbound::Closed).0) is None,
{
}

/// The reply to a hover request ends the exchange and gives the lines of the
/// text that it carries, or nothing where it carries no text.
pub proof fn lemma_hover_reply_gives_its_lines(c: ConnectorView, frame: String)
    requires
        c.phase == Phase::Hovering,
        answers(frame@, HOVER_ID),
    ensures
        receive_next(c, Inbound::Frame(frame)) == (
            ConnectorView { phase: Phase::Initialized, ..c },
            ProgressView::Hover(hover_lines_of(frame@)),
        ),
{
}

/// At most one request is in flight: while a reply is awaited, neither
/// `init` nor `hover` hands out a frame or changes the connector.
pub proof fn lemma_one_request_in_flight(
    c: ConnectorView,
    text: Seq<char>,
    line: u32,
    character: u32,
)
    requires
        awaited(c) is Some,
    ensures
        init_next(c, text) == (c, None::<Seq<char>>),
        hover_next(c, line, character) == (c, None::<Seq<char>>),
{
}

/// How a wait ends when the inbound queue gives `inbound`, one after the
/// other: what comes in is taken until something ends the wait. A queue
/// that gives nothing more leaves the connector waiting.
pub open spec fn waited(c: ConnectorView, inbound: Seq<Inbound>) -> (ConnectorView, ProgressView)
    decreases inbound.len(),
{
    if inbound.len() == 0 {
        (c, ProgressView::Waiting)
    } else {
        let step = receive_next(c, inbound[0]);
        if step.1 is Waiting {
            waited(step.0, inbound.drop_first())
        } else {
            step
        }
    }
}

/// What a wait for a hover reply gives the editor: the lines of the reply,
/// and nothing where the wait ended otherwise.
pub open spec fn hover_answer(progress: ProgressView) -> Option<Seq<Seq<char>>> {
    match progress {
        ProgressView::Hover(found) => found,
        _ => None,
    }
}

/// The whole of a hover call: the frame that is sent, and what the wait for
/// the reply gives. A connector that hands out no frame gives nothing at
/// once, without a look at the queue.
pub open spec fn hover_call(c: ConnectorView, line: u32, character: u32, inbound: Seq<Inbound>) -> (
    Option<Seq<char>>,
    Option<Seq<Seq<char>>>,
) {
    let started = hover_next(c, line, character);
    match started.1 {
        Some(frame) => (Some(frame), hover_answer(waited(started.0, inbound).1)),
        None => (None, None),
    }
}

/// Two connectors in the same phase, which is not the handshake, end a wait
/// alike and in the same phase, whatever their documents are.
pub proof fn lemma_waits_end_alike(a: ConnectorView, b: ConnectorView, inbound: Seq<Inbound>)
    requires
        a.phase == b.phase,
        a.phase != Phase::Handshaking,
    ensures
        waited(a, inbound).1 == waited(b, inbound).1,
        waited(a, inbound).0.phase == waited(b, inbound).0.phase,
    decreases inbound.len(),
{
    if inbound.len() > 0 {
        let next_a = receive_next(a, inbound[0]);
        let next_b = receive_next(b, inbound[0]);
        assert(next_a.1 == next_b.1);
        assert(next_a.0.phase == next_b.0.phase);
        if next_a.1 is Waiting {
            lemma_waits_end_alike(next_a.0, next_b.0, inbound.drop_first());
        }
    }
}

/// Hover is determined by the document's path, by whether the handshake is
/// done, by the position and by what the inbound queue gives: two connectors
/// between calls that agree in these send the same frame, byte for byte,
/// and give the same answer.
pub proof fn lemma_hover_is_determined(
    a: ConnectorView,
    b: ConnectorView,
    line: u32,
    character: u32,
    inbound: Seq<Inbound>,
)
    requires
        awaited(a) is None,
        awaited(b) is None,
        a.filename == b.filename,
        initialized(a) == initialized(b),
    ensures
        hover_call(a, line, character, inbound) == hover_call(b, line, character, inbound),
{
    let started_a = hover_next(a, line, character);
    let started_b = hover_next(b, line, character);
    assert(a.phase == b.phase);
    assert(started_a.1 == started_b.1);
    if started_a.1 is Some {
        lemma_waits_end_alike(started_a.0, started_b.0, inbound);
    }
}

} // verus!
