//! The messages of the session: what the editor sends to the language server
//! and what it reads from the server's replies.

use vstd::prelude::*;
use vstd::string::*;
use crate::json::{
    canonical_uri, integer_at, json_integer, json_member, json_quoted, json_string, member_at,
    quote, string_at, uri_text,
};
use crate::text::{decimal, push_decimal, push_signed_decimal, signed_decimal};
use crate::wire::{frame, frame_of};

verus! {

/// The identifier of the handshake's request.
pub const INITIALIZE_ID: i32 = 0;

/// The identifier of every hover request. One identifier is enough because
/// at most one request is in flight.
pub const HOVER_ID: i32 = 1;

/// The version that a document is opened with.
pub const OPEN_VERSION: i32 = 0;

/// A message to the server. With an identifier it is a request, which the
/// server answers; without one it is a notification.
#[derive(Clone, Debug, PartialEq, Eq)]
pub struct Request {
    /// The method's name.
    pub method: String,
    /// The parameters, as JSON text.
    pub params: Option<String>,
    /// The identifier that the reply will carry.
    pub id: Option<i32>,
}

/// The body of a message whose method is already written as a JSON string:
/// a JSON object with the protocol version, the method, then the parameters
/// and the identifier where there are any.
pub open spec fn envelope_with(quoted_method: Seq<char>, params: Option<Seq<char>>, id: Option<i32>)
    -> Seq<char> {
    "{\"jsonrpc\":\"2.0\",\"method\":"@ + quoted_method + (match params {
        Some(p) => ",\"params\":"@ + p,
        None => Seq::empty(),
    }) + (match id {
        Some(n) => ",\"id\":"@ + signed_decimal(n as int),
        None => Seq::empty(),
    }) + "}"@
}

/// The body of a message; see [`envelope_with`].
pub open spec fn envelope(method: Seq<char>, params: Option<Seq<char>>, id: Option<i32>) -> Seq<
    char,
> {
    envelope_with(json_quoted(method), params, id)
}

/// The parameters of the handshake's request: the one capability that the
/// client declares is hover with plain-text content. It names no parent
/// process and no root folder.
pub open spec fn initialize_params() -> Seq<char> {
    "{\"capabilities\":{\"textDocument\":{\"hover\":{\"contentFormat\":[\"plaintext\"]}}},\"processId\":null,\"rootUri\":null}"@
}

/// The parameters of the notification that ends the handshake: an empty
/// object.
pub open spec fn initialized_params() -> Seq<char> {
    "{}"@
}

/// The URI of the file at the absolute path `filename`, or `None` where the
/// path gives no URI.
pub open spec fn document_uri(filename: Seq<char>) -> Option<Seq<char>> {
    uri_text("file:///"@ + filename)
}

/// The parameters that open a document, from its language, its full text
/// and its URI, each already written as a JSON string, and the version it
/// starts with.
pub open spec fn did_open_params_with(
    quoted_language: Seq<char>,
    quoted_text: Seq<char>,
    quoted_uri: Seq<char>,
) -> Seq<char> {
    "{\"textDocument\":{\"languageId\":"@ + quoted_language + ",\"text\":"@ + quoted_text
        + ",\"uri\":"@ + quoted_uri + ",\"version\":"@ + signed_decimal(OPEN_VERSION as int)
        + "}}"@
}

/// The parameters that open a document; see [`did_open_params_with`].
pub open spec fn did_open_params(uri: Seq<char>, language_id: Seq<char>, text: Seq<char>) -> Seq<
    char,
> {
    did_open_params_with(json_quoted(language_id), json_quoted(text), json_quoted(uri))
}

/// The parameters of a hover request: a position, counted from zero, in the
/// document whose URI is already written as a JSON string.
pub open spec fn hover_params_with(quoted_uri: Seq<char>, line: u32, character: u32) -> Seq<char> {
    "{\"position\":{\"character\":"@ + decimal(character as nat) + ",\"line\":"@ + decimal(
        line as nat,
    ) + "},\"textDocument\":{\"uri\":"@ + quoted_uri + "}}"@
}

/// The parameters of a hover request; see [`hover_params_with`].
pub open spec fn hover_params(uri: Seq<char>, line: u32, character: u32) -> Seq<char> {
    hover_params_with(json_quoted(uri), line, character)
}

/// The view of a string that may be absent.
pub open spec fn text_of(s: Option<String>) -> Option<Seq<char>> {
    match s {
        Some(s) => Some(s@),
        None => None,
    }
}

/// Writes the body of a message whose method is already written as a JSON
/// string; see [`envelope_with`].
pub fn envelope_text(quoted_method: &str, params: Option<&str>, id: Option<i32>) -> (out: String)
    ensures
        out@ == envelope_with(
            quoted_method@,
            match params {
                Some(p) => Some(p@),
                None => None,
            },
            id,
        ),
{
    let mut out = String::from_str("{\"jsonrpc\":\"2.0\",\"method\":");
    out.append(quoted_method);
    match params {
        Some(p) => {
            out.append(",\"params\":");
            out.append(p);
        },
        None => {
            assert(out@ + Seq::<char>::empty() =~= out@);
        },
    }
    match id {
        Some(n) => {
            out.append(",\"id\":");
            push_signed_decimal(&mut out, n as i64);
        },
        None => {
            assert(out@ + Seq::<char>::empty() =~= out@);
        },
    }
    out.append("}");
    out
}

/// Writes the parameters that open a document; see
/// [`did_open_params_with`].
pub fn did_open_params_text(quoted_language: &str, quoted_text: &str, quoted_uri: &str) -> (out:
    String)
    ensures
        out@ == did_open_params_with(quoted_language@, quoted_text@, quoted_uri@),
{
    let mut params = String::from_str("{\"textDocument\":{\"languageId\":");
    params.append(quoted_language);
    params.append(",\"text\":");
    params.append(quoted_text);
    params.append(",\"uri\":");
    params.append(quoted_uri);
    params.append(",\"version\":");
    push_signed_decimal(&mut params, OPEN_VERSION as i64);
    params.append("}}");
    params
}

/// Writes the parameters of a hover request; see [`hover_params_with`].
pub fn hover_params_text(quoted_uri: &str, line: u32, character: u32) -> (out: String)
    ensures
        out@ == hover_params_with(quoted_uri@, line, character),
{
    let mut params = String::from_str("{\"position\":{\"character\":");
    push_decimal(&mut params, character as u64);
    params.append(",\"line\":");
    push_decimal(&mut params, line as u64);
    params.append("},\"textDocument\":{\"uri\":");
    params.append(quoted_uri);
    params.append("}}");
    params
}

impl Request {
    /// A request: `method` with `params`, to be answered under `id`.
    pub fn from_request(method: &str, id: i32, params: String) -> (r: Request)
        ensures
            r.method@ == method@,
            r.params == Some(params),
            r.id == Some(id),
    {
        Request { method: String::from_str(method), params: Some(params), id: Some(id) }
    }

    /// A notification: `method` with `params`, which the server does not
    /// answer.
    pub fn from_notification(method: &str, params: String) -> (r: Request)
        ensures
            r.method@ == method@,
            r.params == Some(params),
            r.id is None,
    {
        Request { method: String::from_str(method), params: Some(params), id: None }
    }

    /// The handshake's request.
    pub fn initialize() -> (r: Request)
        ensures
            r.method@ == "initialize"@,
            text_of(r.params) == Some(initialize_params()),
            r.id == Some(INITIALIZE_ID),
    {
        Request::from_request(
            "initialize",
            INITIALIZE_ID,
            String::from_str(
                "{\"capabilities\":{\"textDocument\":{\"hover\":{\"contentFormat\":[\"plaintext\"]}}},\"processId\":null,\"rootUri\":null}",
            ),
        )
    }

    /// The notification that ends the handshake.
    pub fn initialized() -> (r: Request)
        ensures
            r.method@ == "initialized"@,
            text_of(r.params) == Some(initialized_params()),
            r.id is None,
    {
        Request::from_notification("initialized", String::from_str("{}"))
    }

    /// The notification that opens the document at `uri` with the text
    /// `text`.
    pub fn did_open(uri: &str, language_id: &str, text: &str) -> (r: Request)
        ensures
            r.method@ == "textDocument/didOpen"@,
            text_of(r.params) == Some(did_open_params(uri@, language_id@, text@)),
            r.id is None,
    {
        let params = did_open_params_text(
            quote(language_id).as_str(),
            quote(text).as_str(),
            quote(uri).as_str(),
        );
        Request::from_notification("textDocument/didOpen", params)
    }

    /// The request for what the server knows of the position `line`,
    /// `character` in the document at `uri`.
    pub fn hover(uri: &str, line: u32, character: u32) -> (r: Request)
        ensures
            r.method@ == "textDocument/hover"@,
            text_of(r.params) == Some(hover_params(uri@, line, character)),
            r.id == Some(HOVER_ID),
    {
        let params = hover_params_text(quote(uri).as_str(), line, character);
        Request::from_request("textDocument/hover", HOVER_ID, params)
    }

    /// Whether the server is to answer this message.
    pub fn is_request(&self) -> (b: bool)
        ensures
            b == self.id is Some,
    {
        self.id.is_some()
    }

    /// The body of this message; see [`envelope`].
    pub fn body(&self) -> (out: String)
        ensures
            out@ == envelope(self.method@, text_of(self.params), self.id),
    {
        let params: Option<&str> = match &self.params {
            Some(p) => Some(p.as_str()),
            None => None,
        };
        envelope_text(quote(self.method.as_str()).as_str(), params, self.id)
    }

    /// This message as it goes over the wire: its body in a frame.
    pub fn to_frame(&self) -> (out: String)
        ensures
            out@ == frame_of(envelope(self.method@, text_of(self.params), self.id)),
    {
        let body = self.body();
        frame(body.as_str())
    }
}

/// The URI of the file at the absolute path `filename`; see
/// [`document_uri`].
pub fn uri_of(filename: &str) -> (uri: Option<String>)
    ensures
        text_of(uri) == document_uri(filename@),
{
    let address = String::from_str("file:///").concat(filename);
    canonical_uri(address.as_str())
}

/// A reply of the server, as far as the session reads it.
#[derive(Clone, Debug, PartialEq, Eq)]
pub struct Response {
    /// The protocol version that the reply names.
    pub jsonrpc: String,
    /// The identifier of the request that is answered.
    pub id: Option<i64>,
    /// The result, as JSON text.
    pub result: Option<String>,
    /// The error, as JSON text.
    pub error: Option<String>,
}

/// A [`Response`] with its texts as sequences of characters.
pub ghost struct ResponseView {
    pub jsonrpc: Seq<char>,
    pub id: Option<i64>,
    pub result: Option<Seq<char>>,
    pub error: Option<Seq<char>>,
}

impl View for Response {
    type V = ResponseView;

    open spec fn view(&self) -> ResponseView {
        ResponseView {
            jsonrpc: self.jsonrpc@,
            id: self.id,
            result: text_of(self.result),
            error: text_of(self.error),
        }
    }
}

/// A member counts as present when the document holds one that is not
/// `null`.
pub open spec fn present(member: Option<Seq<char>>) -> Option<Seq<char>> {
    match member {
        Some(m) => if m == "null"@ {
            None
        } else {
            Some(m)
        },
        None => None,
    }
}

/// The reply that a document makes, from what it holds under `jsonrpc`,
/// `id`, `result` and `error`: none unless it names the protocol version as
/// a string.
pub open spec fn response_from(
    jsonrpc: Option<Seq<char>>,
    id: Option<i64>,
    result: Option<Seq<char>>,
    error: Option<Seq<char>>,
) -> Option<ResponseView> {
    match jsonrpc {
        Some(version) => Some(
            ResponseView { jsonrpc: version, id, result: present(result), error: present(error) },
        ),
        None => None,
    }
}

/// What the frame `text` says as a reply; see [`response_from`].
pub open spec fn response_of(text: Seq<char>) -> Option<ResponseView> {
    response_from(
        json_string(text, "/jsonrpc"@),
        json_integer(text, "/id"@),
        json_member(text, "/result"@),
        json_member(text, "/error"@),
    )
}

/// The text of a markup block, from the kind and the value that the block
/// holds as strings: the block must name the kind `plaintext` or `markdown`
/// and hold a value. Any other shape has no text.
pub open spec fn markup_from(kind: Option<Seq<char>>, value: Option<Seq<char>>) -> Option<
    Seq<char>,
> {
    match (kind, value) {
        (Some(kind), Some(value)) => if kind == "plaintext"@ || kind == "markdown"@ {
            Some(value)
        } else {
            None
        },
        _ => None,
    }
}

/// Whether `n` is an integer that counts lines or characters: not negative
/// and within 32 bits.
pub open spec fn is_count(n: Option<i64>) -> bool {
    match n {
        Some(v) => 0 <= v <= u32::MAX,
        None => false,
    }
}

/// Whether the range of a hover result is in order, from what the result
/// holds under `range` and, as integers, under the lines and characters of
/// the range's start and end: the result holds no range, or one whose four
/// numbers all count lines or characters.
pub open spec fn range_in_order(
    range: Option<Seq<char>>,
    start_line: Option<i64>,
    start_character: Option<i64>,
    end_line: Option<i64>,
    end_character: Option<i64>,
) -> bool {
    present(range) is None || (is_count(start_line) && is_count(start_character) && is_count(
        end_line,
    ) && is_count(end_character))
}

/// The hover text of a result, from what its contents hold as strings under
/// `kind`, `value` and `language`, and whether its range is in order. The
/// contents are a single markup block when they hold no language; a result
/// whose range is out of order has no text. See [`markup_from`].
pub open spec fn hover_markup(
    kind: Option<Seq<char>>,
    value: Option<Seq<char>>,
    language: Option<Seq<char>>,
    range_ok: bool,
) -> Option<Seq<char>> {
    if language is Some || !range_ok {
        None
    } else {
        markup_from(kind, value)
    }
}

/// Whether the range that the hover result `result` holds is in order; see
/// [`range_in_order`].
pub open spec fn range_of(result: Seq<char>) -> bool {
    range_in_order(
        json_member(result, "/range"@),
        json_integer(result, "/range/start/line"@),
        json_integer(result, "/range/start/character"@),
        json_integer(result, "/range/end/line"@),
        json_integer(result, "/range/end/character"@),
    )
}

/// The text of the markup block that the hover result `result` holds as its
/// contents; see [`hover_markup`].
pub open spec fn markup_of(result: Seq<char>) -> Option<Seq<char>> {
    hover_markup(
        json_string(result, "/contents/kind"@),
        json_string(result, "/contents/value"@),
        json_string(result, "/contents/language"@),
        range_of(result),
    )
}

/// The hover text that a reply carries: the markup of its result, if it has
/// a result.
pub open spec fn hover_text_of(reply: ResponseView) -> Option<Seq<char>> {
    match reply.result {
        Some(result) => markup_of(result),
        None => None,
    }
}

/// The member `member`, where it counts as present; see [`present`].
pub fn present_member(member: Option<String>) -> (out: Option<String>)
    ensures
        text_of(out) == present(text_of(member)),
{
    match member {
        Some(m) => {
            if m == String::from_str("null") {
                None
            } else {
                Some(m)
            }
        },
        None => None,
    }
}

/// The text of a markup block; see [`markup_from`].
pub fn markup_text(kind: Option<String>, value: Option<String>) -> (out: Option<String>)
    ensures
        text_of(out) == markup_from(text_of(kind), text_of(value)),
{
    match (kind, value) {
        (Some(kind), Some(value)) => {
            if kind == String::from_str("plaintext") || kind == String::from_str("markdown") {
                Some(value)
            } else {
                None
            }
        },
        _ => None,
    }
}

/// Whether `n` counts lines or characters; see [`is_count`].
pub fn counts(n: Option<i64>) -> (b: bool)
    ensures
        b == is_count(n),
{
    match n {
        Some(v) => 0 <= v && v <= 4294967295,
        None => false,
    }
}

/// Whether the range of a hover result is in order; see
/// [`range_in_order`].
pub fn range_fits(
    range: Option<String>,
    start_line: Option<i64>,
    start_character: Option<i64>,
    end_line: Option<i64>,
    end_character: Option<i64>,
) -> (b: bool)
    ensures
        b == range_in_order(
            text_of(range),
            start_line,
            start_character,
            end_line,
            end_character,
        ),
{
    match present_member(range) {
        Some(_) => counts(start_line) && counts(start_character) && counts(end_line) && counts(
            end_character,
        ),
        None => true,
    }
}

/// The hover text of a result; see [`hover_markup`].
pub fn hover_markup_text(
    kind: Option<String>,
    value: Option<String>,
    language: Option<String>,
    range_ok: bool,
) -> (out: Option<String>)
    ensures
        text_of(out) == hover_markup(text_of(kind), text_of(value), text_of(language), range_ok),
{
    if language.is_some() || !range_ok {
        None
    } else {
        markup_text(kind, value)
    }
}

impl Response {
    /// The reply that a document makes, from what it holds under `jsonrpc`,
    /// `id`, `result` and `error`; see [`response_from`].
    pub fn from_members(
        jsonrpc: Option<String>,
        id: Option<i64>,
        result: Option<String>,
        error: Option<String>,
    ) -> (r: Option<Response>)
        ensures
            match r {
                Some(reply) => response_from(text_of(jsonrpc), id, text_of(result), text_of(error))
                    == Some(reply@),
                None => response_from(text_of(jsonrpc), id, text_of(result), text_of(error))
                    is None,
            },
    {
        match jsonrpc {
            Some(version) => Some(
                Response {
                    jsonrpc: version,
                    id,
                    result: present_member(result),
                    error: present_member(error),
                },
            ),
            None => None,
        }
    }

    /// Reads the frame `text` as a reply; see [`response_of`].
    pub fn parse(text: &str) -> (r: Option<Response>)
        ensures
            match r {
                Some(reply) => response_of(text@) == Some(reply@),
                None => response_of(text@) is None,
            },
    {
        Response::from_members(
            string_at(text, "/jsonrpc"),
            integer_at(text, "/id"),
            member_at(text, "/result"),
            member_at(text, "/error"),
        )
    }

    /// Whether this reply answers the request `id`.
    pub fn answers(&self, id: i32) -> (b: bool)
        ensures
            b == (self@.id == Some(id as i64)),
    {
        match self.id {
            Some(n) => n == id as i64,
            None => false,
        }
    }

    /// The hover text that this reply carries; see [`hover_text_of`].
    pub fn hover_text(&self) -> (out: Option<String>)
        ensures
            text_of(out) == hover_text_of(self@),
    {
        match &self.result {
            Some(result) => {
                let found = result.as_str();
                let range_ok = range_fits(
                    member_at(found, "/range"),
                    integer_at(found, "/range/start/line"),
                    integer_at(found, "/range/start/character"),
                    integer_at(found, "/range/end/line"),
                    integer_at(found, "/range/end/character"),
                );
                hover_markup_text(
                    string_at(found, "/contents/kind"),
                    string_at(found, "/contents/value"),
                    string_at(found, "/contents/language"),
                    range_ok,
                )
            },
            None => None,
        }
    }
}

} // verus!
