use hecto::protocol::{
    counts, did_open_params_text, envelope_text, hover_markup_text, hover_params_text, markup_text,
    present_member, range_fits, uri_of, Request, Response, HOVER_ID, INITIALIZE_ID,
};
use lsp_types::{
    ClientCapabilities, DidOpenTextDocumentParams, HoverClientCapabilities, HoverParams,
    InitializeParams, InitializedParams, MarkupKind, TextDocumentClientCapabilities,
    TextDocumentIdentifier, TextDocumentItem, TextDocumentPositionParams, Url,
};

fn through_value<T: serde::Serialize>(params: T) -> String {
    serde_json::to_string(&serde_json::to_value(params).unwrap()).unwrap()
}

#[test]
fn initialize_params_are_what_lsp_types_writes() {
    let params = InitializeParams {
        capabilities: ClientCapabilities {
            text_document: Some(TextDocumentClientCapabilities {
                hover: Some(HoverClientCapabilities {
                    dynamic_registration: None,
                    content_format: Some(vec![MarkupKind::PlainText]),
                }),
                ..Default::default()
            }),
            ..Default::default()
        },
        ..Default::default()
    };
    let request = Request::initialize();
    assert_eq!(request.method, "initialize");
    assert_eq!(request.id, Some(0));
    assert_eq!(request.params, Some(through_value(params)));
}

#[test]
fn initialize_declares_hover_with_plain_text_and_nothing_else() {
    let params = Request::initialize().params.unwrap();
    assert_eq!(
        params,
        "{\"capabilities\":{\"textDocument\":{\"hover\":{\"contentFormat\":[\"plaintext\"]}}},\"processId\":null,\"rootUri\":null}"
    );
    let parsed: serde_json::Value = serde_json::from_str(&params).unwrap();
    let capabilities = parsed.get("capabilities").unwrap().as_object().unwrap();
    assert_eq!(capabilities.keys().collect::<Vec<_>>(), vec!["textDocument"]);
    let text_document = capabilities["textDocument"].as_object().unwrap();
    assert_eq!(text_document.keys().collect::<Vec<_>>(), vec!["hover"]);
    let hover = text_document["hover"].as_object().unwrap();
    assert_eq!(hover.keys().collect::<Vec<_>>(), vec!["contentFormat"]);
    let formats = hover["contentFormat"].as_array().unwrap();
    assert_eq!(formats.len(), 1);
    assert_eq!(formats[0].as_str(), Some("plaintext"));
    let decoded: InitializeParams = serde_json::from_str(&params).unwrap();
    assert_eq!(decoded.capabilities.workspace, None);
    assert_eq!(decoded.capabilities.window, None);
    assert_eq!(decoded.capabilities.general, None);
    assert_eq!(decoded.capabilities.experimental, None);
    assert_eq!(decoded.process_id, None);
    assert_eq!(decoded.workspace_folders, None);
}

#[test]
fn initialized_params_are_what_lsp_types_writes() {
    let request = Request::initialized();
    assert_eq!(request.method, "initialized");
    assert_eq!(request.id, None);
    assert_eq!(request.params, Some(through_value(InitializedParams {})));
}

#[test]
fn did_open_params_are_what_lsp_types_writes() {
    let text = "fn main() {\r\n\tprintln!(\"hi \\ there\");\r\n}\u{1}é";
    let params = DidOpenTextDocumentParams {
        text_document: TextDocumentItem {
            uri: Url::parse("file:///home/me/main.rs").unwrap(),
            language_id: String::from("Rust"),
            version: 0,
            text: String::from(text),
        },
    };
    let request = Request::did_open("file:///home/me/main.rs", "Rust", text);
    assert_eq!(request.method, "textDocument/didOpen");
    assert_eq!(request.id, None);
    assert_eq!(request.params, Some(through_value(params)));
}

#[test]
fn hover_params_are_what_lsp_types_writes() {
    let params = HoverParams {
        text_document_position_params: TextDocumentPositionParams {
            text_document: TextDocumentIdentifier { uri: Url::parse("file:///home/me/main.rs").unwrap() },
            position: lsp_types::Position { line: 3, character: 5 },
        },
        work_done_progress_params: Default::default(),
    };
    let request = Request::hover("file:///home/me/main.rs", 3, 5);
    assert_eq!(request.method, "textDocument/hover");
    assert_eq!(request.id, Some(1));
    assert_eq!(request.params, Some(through_value(params)));
    let far = Request::hover("file:///x", u32::MAX, 0);
    assert_eq!(
        far.params.unwrap(),
        "{\"position\":{\"character\":0,\"line\":4294967295},\"textDocument\":{\"uri\":\"file:///x\"}}"
    );
}

#[test]
fn request_ids_are_fixed() {
    assert_eq!(INITIALIZE_ID, 0);
    assert_eq!(HOVER_ID, 1);
}

#[test]
fn body_of_a_request() {
    let request = Request::from_request("textDocument/hover", 1, String::from("{\"a\":1}"));
    assert!(request.is_request());
    assert_eq!(request.body(), "{\"jsonrpc\":\"2.0\",\"method\":\"textDocument/hover\",\"params\":{\"a\":1},\"id\":1}");
}

#[test]
fn body_of_a_notification() {
    let request = Request::from_notification("initialized", String::from("{}"));
    assert!(!request.is_request());
    assert_eq!(request.body(), "{\"jsonrpc\":\"2.0\",\"method\":\"initialized\",\"params\":{}}");
}

#[test]
fn body_without_params() {
    let request = Request { method: String::from("exit"), params: None, id: None };
    assert_eq!(request.body(), "{\"jsonrpc\":\"2.0\",\"method\":\"exit\"}");
    let request = Request { method: String::from("shutdown"), params: None, id: Some(-7) };
    assert_eq!(request.body(), "{\"jsonrpc\":\"2.0\",\"method\":\"shutdown\",\"id\":-7}");
}

#[test]
fn body_quotes_the_method() {
    let request = Request { method: String::from("a\"b\\c\nd"), params: None, id: None };
    let body = request.body();
    assert_eq!(body, "{\"jsonrpc\":\"2.0\",\"method\":\"a\\\"b\\\\c\\nd\"}");
    let parsed: serde_json::Value = serde_json::from_str(&body).unwrap();
    assert_eq!(parsed.get("method").unwrap().as_str(), Some("a\"b\\c\nd"));
}

#[test]
fn body_is_json_with_the_fields_of_the_protocol() {
    let body = Request::hover("file:///tmp/a.rs", 3, 5).body();
    let parsed: serde_json::Value = serde_json::from_str(&body).unwrap();
    assert_eq!(parsed.pointer("/jsonrpc").unwrap().as_str(), Some("2.0"));
    assert_eq!(parsed.pointer("/method").unwrap().as_str(), Some("textDocument/hover"));
    assert_eq!(parsed.pointer("/id").unwrap().as_i64(), Some(1));
    assert_eq!(parsed.pointer("/params/textDocument/uri").unwrap().as_str(), Some("file:///tmp/a.rs"));
    assert_eq!(parsed.pointer("/params/position/line").unwrap().as_u64(), Some(3));
    assert_eq!(parsed.pointer("/params/position/character").unwrap().as_u64(), Some(5));
}

#[test]
fn frame_of_a_request_declares_the_length_of_its_body() {
    for request in [
        Request::initialize(),
        Request::initialized(),
        Request::did_open("file:///tmp/ä.rs", "Rust", "let s = \"żółć\";\r\n"),
        Request::hover("file:///tmp/a.rs", 0, 0),
    ] {
        let body = request.body();
        assert_eq!(request.to_frame(), format!("Content-Length: {}\r\n\r\n{}", body.len(), body));
    }
}

#[test]
fn uri_of_an_absolute_path() {
    assert_eq!(uri_of("home/me/main.rs"), Some(String::from("file:///home/me/main.rs")));
    assert_eq!(uri_of("/home/me/main.rs"), Some(String::from("file:///home/me/main.rs")));
    assert_eq!(uri_of(""), Some(String::from("file:///")));
}

#[test]
fn uri_goes_through_the_url_parser() {
    assert_eq!(uri_of("home/me/my file.rs"), Some(String::from("file:///home/me/my%20file.rs")));
    assert_eq!(uri_of("home/me/../you/a.rs"), Some(String::from("file:///home/you/a.rs")));
    for path in ["tmp/a b/ü.rs", "tmp/./x.c", "a#b", "C:/x/y.py"] {
        let expected = Url::parse(&format!("file:///{}", path)).ok().map(String::from);
        assert_eq!(uri_of(path), expected, "{:?}", path);
    }
}

#[test]
fn response_with_a_result() {
    let reply = Response::parse("{\"jsonrpc\":\"2.0\",\"id\":0,\"result\":{\"capabilities\":{}}}").unwrap();
    assert_eq!(reply.jsonrpc, "2.0");
    assert_eq!(reply.id, Some(0));
    assert_eq!(reply.result, Some(String::from("{\"capabilities\":{}}")));
    assert_eq!(reply.error, None);
}

#[test]
fn response_with_an_error() {
    let reply = Response::parse(
        "{\"jsonrpc\":\"2.0\",\"id\":1,\"error\":{\"code\":-32601,\"message\":\"no such method\"}}",
    ).unwrap();
    assert_eq!(reply.id, Some(1));
    assert_eq!(reply.result, None);
    assert_eq!(reply.error, Some(String::from("{\"code\":-32601,\"message\":\"no such method\"}")));
    assert_eq!(reply.hover_text(), None);
}

#[test]
fn response_with_null_members() {
    let reply = Response::parse("{\"jsonrpc\":\"2.0\",\"id\":1,\"result\":null,\"error\":null}").unwrap();
    assert_eq!(reply.result, None);
    assert_eq!(reply.error, None);
    assert_eq!(reply.hover_text(), None);
}

#[test]
fn response_without_an_id() {
    let reply = Response::parse("{\"jsonrpc\":\"2.0\",\"method\":\"window/logMessage\",\"params\":{}}").unwrap();
    assert_eq!(reply.id, None);
    let reply = Response::parse("{\"jsonrpc\":\"2.0\",\"id\":\"abc\"}").unwrap();
    assert_eq!(reply.id, None);
    let reply = Response::parse("{\"jsonrpc\":\"2.0\",\"id\":1.5}").unwrap();
    assert_eq!(reply.id, None);
}

#[test]
fn response_that_is_no_reply() {
    assert_eq!(Response::parse(""), None);
    assert_eq!(Response::parse("not json"), None);
    assert_eq!(Response::parse("{\"jsonrpc\":\"2.0\""), None);
    assert_eq!(Response::parse("{\"id\":0,\"result\":{}}"), None);
    assert_eq!(Response::parse("{\"jsonrpc\":2,\"id\":0}"), None);
    assert_eq!(Response::parse("[1,2,3]"), None);
    assert_eq!(Response::parse("42"), None);
}

#[test]
fn hover_text_of_a_markup_block() {
    let reply = Response::parse(
        "{\"jsonrpc\":\"2.0\",\"id\":1,\"result\":{\"contents\":{\"kind\":\"markdown\",\"value\":\"foo\\nbar\"}}}",
    ).unwrap();
    assert_eq!(reply.hover_text(), Some(String::from("foo\nbar")));
    let reply = Response::parse(
        "{\"jsonrpc\":\"2.0\",\"id\":1,\"result\":{\"contents\":{\"kind\":\"plaintext\",\"value\":\"\\\"q\\\" \\u00e9\"},\"range\":{\"start\":{\"line\":1,\"character\":2},\"end\":{\"line\":1,\"character\":3}}}}",
    ).unwrap();
    assert_eq!(reply.hover_text(), Some(String::from("\"q\" é")));
}

#[test]
fn hover_text_of_any_other_shape_is_none() {
    for result in [
        "42",
        "\"text\"",
        "{}",
        "[]",
        "{\"contents\":\"plain string\"}",
        "{\"contents\":[\"a\",\"b\"]}",
        "{\"contents\":{\"language\":\"rust\",\"value\":\"fn f()\"}}",
        "{\"contents\":{\"kind\":\"html\",\"value\":\"x\"}}",
        "{\"contents\":{\"kind\":\"markdown\"}}",
        "{\"contents\":{\"kind\":\"markdown\",\"value\":7}}",
        "{\"contents\":{\"value\":\"x\"}}",
        "{\"kind\":\"markdown\",\"value\":\"x\"}",
    ] {
        let text = format!("{{\"jsonrpc\":\"2.0\",\"id\":1,\"result\":{}}}", result);
        let reply = Response::parse(&text).unwrap();
        assert_eq!(reply.hover_text(), None, "{}", result);
    }
}

#[test]
fn hover_text_agrees_with_lsp_types_on_markup_blocks() {
    for (kind, value) in [("markdown", "# Title\n\ntext"), ("plaintext", ""), ("markdown", "a\r\nb")] {
        let result = format!(
            "{{\"contents\":{{\"kind\":{},\"value\":{}}}}}",
            serde_json::to_string(kind).unwrap(),
            serde_json::to_string(value).unwrap()
        );
        let hover: lsp_types::Hover = serde_json::from_str(&result).unwrap();
        let expected = match hover.contents {
            lsp_types::HoverContents::Markup(markup) => Some(markup.value),
            _ => None,
        };
        let text = format!("{{\"jsonrpc\":\"2.0\",\"id\":1,\"result\":{}}}", result);
        assert_eq!(Response::parse(&text).unwrap().hover_text(), expected);
    }
}

#[test]
fn envelope_from_a_quoted_method() {
    assert_eq!(
        envelope_text("\"m\"", Some("[1]"), Some(3)),
        "{\"jsonrpc\":\"2.0\",\"method\":\"m\",\"params\":[1],\"id\":3}"
    );
    assert_eq!(envelope_text("\"m\"", None, None), "{\"jsonrpc\":\"2.0\",\"method\":\"m\"}");
    assert_eq!(
        envelope_text("\"m\"", None, Some(i32::MIN)),
        "{\"jsonrpc\":\"2.0\",\"method\":\"m\",\"id\":-2147483648}"
    );
    assert_eq!(
        envelope_text("\"m\"", Some("{}"), None),
        "{\"jsonrpc\":\"2.0\",\"method\":\"m\",\"params\":{}}"
    );
}

#[test]
fn params_from_quoted_strings() {
    assert_eq!(
        did_open_params_text("\"C\"", "\"int x;\"", "\"file:///a.c\""),
        "{\"textDocument\":{\"languageId\":\"C\",\"text\":\"int x;\",\"uri\":\"file:///a.c\",\"version\":0}}"
    );
    assert_eq!(
        hover_params_text("\"file:///a.c\"", 12, 34),
        "{\"position\":{\"character\":34,\"line\":12},\"textDocument\":{\"uri\":\"file:///a.c\"}}"
    );
}

#[test]
fn members_that_count_as_present() {
    assert_eq!(present_member(None), None);
    assert_eq!(present_member(Some(String::from("null"))), None);
    assert_eq!(present_member(Some(String::from("0"))), Some(String::from("0")));
    assert_eq!(present_member(Some(String::from("\"null\""))), Some(String::from("\"null\"")));
    assert_eq!(present_member(Some(String::from("{}"))), Some(String::from("{}")));
}

#[test]
fn markup_from_its_kind_and_value() {
    let some = |text: &str| Some(String::from(text));
    assert_eq!(markup_text(some("markdown"), some("v")), some("v"));
    assert_eq!(markup_text(some("plaintext"), some("")), some(""));
    assert_eq!(markup_text(some("Markdown"), some("v")), None);
    assert_eq!(markup_text(some(""), some("v")), None);
    assert_eq!(markup_text(None, some("v")), None);
    assert_eq!(markup_text(some("markdown"), None), None);
    assert_eq!(markup_text(None, None), None);
}

#[test]
fn response_from_its_members() {
    let some = |text: &str| Some(String::from(text));
    let reply = Response::from_members(some("2.0"), Some(7), some("{\"a\":1}"), some("null")).unwrap();
    assert_eq!(
        reply,
        Response { jsonrpc: String::from("2.0"), id: Some(7), result: some("{\"a\":1}"), error: None }
    );
    assert_eq!(Response::from_members(None, Some(7), some("{}"), None), None);
    let reply = Response::from_members(some(""), None, None, None).unwrap();
    assert_eq!(reply, Response { jsonrpc: String::new(), id: None, result: None, error: None });
}

#[test]
fn reply_answers_the_request_whose_id_it_carries() {
    let reply = Response::parse("{\"jsonrpc\":\"2.0\",\"id\":1}").unwrap();
    assert!(reply.answers(1));
    assert!(!reply.answers(0));
    assert!(!reply.answers(-1));
    let reply = Response::parse("{\"jsonrpc\":\"2.0\",\"id\":4294967297}").unwrap();
    assert_eq!(reply.id, Some(4294967297));
    assert!(!reply.answers(1));
    let reply = Response::parse("{\"jsonrpc\":\"2.0\"}").unwrap();
    assert!(!reply.answers(0));
}

fn markup_by_lsp_types(result: &str) -> Option<String> {
    let hover: lsp_types::Hover = serde_json::from_str(result).ok()?;
    match hover.contents {
        lsp_types::HoverContents::Markup(markup) => Some(markup.value),
        _ => None,
    }
}

fn markup_by_the_library(result: &str) -> Option<String> {
    let text = format!("{{\"jsonrpc\":\"2.0\",\"id\":1,\"result\":{}}}", result);
    Response::parse(&text).unwrap().hover_text()
}

#[test]
fn hover_text_agrees_with_lsp_types_on_contents_with_a_language() {
    for (contents, expected) in [
        ("{\"kind\":\"markdown\",\"value\":\"v\",\"language\":\"rust\"}", None),
        ("{\"language\":\"rust\",\"kind\":\"plaintext\",\"value\":\"v\"}", None),
        ("{\"language\":\"\",\"kind\":\"markdown\",\"value\":\"v\"}", None),
        ("{\"language\":\"rust\",\"value\":\"v\"}", None),
        ("{\"language\":\"rust\",\"kind\":\"markdown\",\"value\":7}", None),
        ("{\"language\":7,\"kind\":\"markdown\",\"value\":\"v\"}", Some("v")),
        ("{\"language\":null,\"kind\":\"markdown\",\"value\":\"v\"}", Some("v")),
        ("{\"language\":[\"rust\"],\"kind\":\"plaintext\",\"value\":\"v\"}", Some("v")),
        ("{\"kind\":\"markdown\",\"value\":\"v\",\"extra\":true}", Some("v")),
    ] {
        let result = format!("{{\"contents\":{}}}", contents);
        assert_eq!(markup_by_lsp_types(&result), expected.map(String::from), "{}", result);
        assert_eq!(markup_by_the_library(&result), expected.map(String::from), "{}", result);
    }
}

#[test]
fn hover_text_agrees_with_lsp_types_on_ranges() {
    let contents = "{\"kind\":\"markdown\",\"value\":\"v\"}";
    for (range, expected) in [
        ("null", Some("v")),
        ("{\"start\":{\"line\":1,\"character\":2},\"end\":{\"line\":1,\"character\":3}}", Some("v")),
        ("{\"start\":{\"line\":0,\"character\":0},\"end\":{\"line\":4294967295,\"character\":4294967295}}", Some("v")),
        ("{\"end\":{\"character\":3,\"line\":1,\"x\":0},\"start\":{\"line\":1,\"character\":2},\"y\":[]}", Some("v")),
        ("{\"start\":{\"line\":1,\"character\":2},\"end\":{\"line\":4294967296,\"character\":3}}", None),
        ("{\"start\":{\"line\":-1,\"character\":2},\"end\":{\"line\":1,\"character\":3}}", None),
        ("{\"start\":{\"line\":1.5,\"character\":2},\"end\":{\"line\":1,\"character\":3}}", None),
        ("{\"start\":{\"line\":1.0,\"character\":2},\"end\":{\"line\":1,\"character\":3}}", None),
        ("{\"start\":{\"line\":\"1\",\"character\":2},\"end\":{\"line\":1,\"character\":3}}", None),
        ("{\"start\":{\"line\":1},\"end\":{\"line\":1,\"character\":3}}", None),
        ("{\"start\":{\"line\":1,\"character\":2}}", None),
        ("{\"start\":null,\"end\":null}", None),
        ("{}", None),
        ("\"1:2-1:3\"", None),
        ("7", None),
        ("true", None),
    ] {
        let result = format!("{{\"contents\":{},\"range\":{}}}", contents, range);
        assert_eq!(markup_by_lsp_types(&result), expected.map(String::from), "{}", result);
        assert_eq!(markup_by_the_library(&result), expected.map(String::from), "{}", result);
    }
    let result = format!("{{\"contents\":{}}}", contents);
    assert_eq!(markup_by_lsp_types(&result), Some(String::from("v")));
    assert_eq!(markup_by_the_library(&result), Some(String::from("v")));
}

#[test]
fn hover_text_agrees_with_lsp_types_on_other_contents() {
    for result in [
        "{\"contents\":\"plain string\"}",
        "{\"contents\":[\"a\",{\"language\":\"rust\",\"value\":\"b\"}]}",
        "{\"contents\":[]}",
        "{\"contents\":{\"kind\":\"html\",\"value\":\"x\"}}",
        "{\"contents\":{\"kind\":\"Markdown\",\"value\":\"x\"}}",
        "{\"contents\":{\"kind\":\"markdown\"}}",
        "{\"contents\":{\"value\":\"x\"}}",
        "{\"contents\":{\"kind\":\"plaintext\",\"value\":\"line one\\nline two\"}}",
        "{\"contents\":{\"kind\":\"markdown\",\"value\":\"\"},\"more\":1}",
        "{\"contents\":null}",
        "{\"contents\":7}",
        "{}",
        "42",
        "\"text\"",
    ] {
        assert_eq!(markup_by_the_library(result), markup_by_lsp_types(result), "{}", result);
    }
}

#[test]
fn numbers_that_count_lines_and_characters() {
    assert!(counts(Some(0)));
    assert!(counts(Some(4294967295)));
    assert!(!counts(Some(4294967296)));
    assert!(!counts(Some(-1)));
    assert!(!counts(Some(i64::MIN)));
    assert!(!counts(Some(i64::MAX)));
    assert!(!counts(None));
}

#[test]
fn ranges_that_are_in_order() {
    let range = || Some(String::from("{}"));
    assert!(range_fits(None, None, None, None, None));
    assert!(range_fits(Some(String::from("null")), None, Some(-1), None, None));
    assert!(range_fits(range(), Some(1), Some(2), Some(3), Some(4)));
    assert!(!range_fits(range(), None, Some(2), Some(3), Some(4)));
    assert!(!range_fits(range(), Some(1), None, Some(3), Some(4)));
    assert!(!range_fits(range(), Some(1), Some(2), None, Some(4)));
    assert!(!range_fits(range(), Some(1), Some(2), Some(3), None));
    assert!(!range_fits(range(), Some(1), Some(2), Some(3), Some(-4)));
    assert!(!range_fits(range(), Some(1), Some(2), Some(4294967296), Some(4)));
}

#[test]
fn hover_markup_from_its_parts() {
    let some = |text: &str| Some(String::from(text));
    assert_eq!(hover_markup_text(some("markdown"), some("v"), None, true), some("v"));
    assert_eq!(hover_markup_text(some("plaintext"), some("v"), None, true), some("v"));
    assert_eq!(hover_markup_text(some("markdown"), some("v"), some("rust"), true), None);
    assert_eq!(hover_markup_text(some("markdown"), some("v"), None, false), None);
    assert_eq!(hover_markup_text(some("html"), some("v"), None, true), None);
    assert_eq!(hover_markup_text(None, some("v"), None, true), None);
    assert_eq!(hover_markup_text(some("markdown"), None, None, true), None);
}
