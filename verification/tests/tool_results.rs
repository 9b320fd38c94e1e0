use senza::content::{attachment_to_content_block, DataBlock, ImageSource};
use senza::error::PyErrorKind;
use senza::hook_outcome::CallbackOutcome;
use senza::tool_result::{
    parse_tool_result, tool_execution_result, tool_schema_source, ParsedToolResult, SchemaSource,
};
use senza::json::json_text_value;
use senza::value::PyValue;

fn serde_error(s: &str) -> String {
    serde_json::from_str::<serde_json::Value>(s).unwrap_err().to_string()
}

fn object_schema() -> serde_json::Value {
    let mut m = serde_json::Map::new();
    m.insert("type".to_string(), serde_json::Value::String("object".to_string()));
    serde_json::Value::Object(m)
}

fn text(s: &str) -> PyValue {
    PyValue::Str(s.to_string())
}

fn dict(pairs: Vec<(&str, PyValue)>) -> PyValue {
    PyValue::Dict(pairs.into_iter().map(|(k, v)| (k.to_string(), v)).collect())
}

fn text_block(s: &str) -> DataBlock {
    DataBlock::Text { text: s.to_string(), mime_type: None }
}

#[test]
fn plain_string_is_one_text_block() {
    let r = parse_tool_result(text("hello")).unwrap();
    assert_eq!(
        r,
        ParsedToolResult::Blocks {
            content: vec![text_block("hello")],
            details: PyValue::NoneValue,
            terminate: false
        }
    );
}

#[test]
fn bare_attachment_is_one_block() {
    let b = attachment_to_content_block("image_url", "https://x/y.png", None, None).unwrap();
    let r = parse_tool_result(PyValue::Attachment(b)).unwrap();
    assert_eq!(
        r,
        ParsedToolResult::Blocks {
            content: vec![DataBlock::Image { source: ImageSource::Url { url: "https://x/y.png".into() } }],
            details: PyValue::NoneValue,
            terminate: false
        }
    );
}

#[test]
fn list_and_tuple_mix_strings_and_attachments() {
    let b = attachment_to_content_block("image_base64", "AAAA", None, None).unwrap();
    let r = parse_tool_result(PyValue::Tuple(vec![text("a"), PyValue::Attachment(b)])).unwrap();
    match r {
        ParsedToolResult::Blocks { content, .. } => {
            assert_eq!(content.len(), 2);
            assert_eq!(content[0], text_block("a"));
            assert!(matches!(content[1], DataBlock::Image { .. }));
        }
        _ => panic!("expected blocks"),
    }
    let err = parse_tool_result(PyValue::List(vec![text("a"), PyValue::Int(1)])).unwrap_err();
    assert_eq!(err.kind, PyErrorKind::ValueError);
    assert_eq!(err.message, "list return items must be Attachment or str");
}

#[test]
fn dict_without_content_is_rendered_whole() {
    let d = dict(vec![("answer", PyValue::Int(42)), ("terminate", PyValue::Bool(true))]);
    let r = parse_tool_result(d).unwrap();
    assert_eq!(
        r,
        ParsedToolResult::DictAsJson {
            value: dict(vec![("answer", PyValue::Int(42)), ("terminate", PyValue::Bool(true))]),
            terminate: true
        }
    );
}

#[test]
fn dict_with_content_gives_blocks_details_and_terminate() {
    let d = dict(vec![
        ("content", PyValue::List(vec![dict(vec![("type", text("text")), ("text", text("done"))])])),
        ("details", dict(vec![("n", PyValue::Int(1))])),
        ("terminate", PyValue::Bool(true)),
    ]);
    let r = parse_tool_result(d).unwrap();
    assert_eq!(
        r,
        ParsedToolResult::Blocks {
            content: vec![text_block("done")],
            details: dict(vec![("n", PyValue::Int(1))]),
            terminate: true
        }
    );
}

#[test]
fn content_none_means_no_blocks_and_odd_terminate_is_false() {
    let d = dict(vec![("content", PyValue::NoneValue), ("terminate", text("yes"))]);
    let r = parse_tool_result(d).unwrap();
    assert_eq!(
        r,
        ParsedToolResult::Blocks { content: vec![], details: PyValue::NoneValue, terminate: false }
    );
}

#[test]
fn content_errors() {
    let not_list = parse_tool_result(dict(vec![("content", text("x"))])).unwrap_err();
    assert_eq!(not_list.kind, PyErrorKind::TypeError);
    assert_eq!(not_list.message, "'str' object is not an instance of 'list'");

    let unknown = parse_tool_result(dict(vec![(
        "content",
        PyValue::List(vec![dict(vec![("type", text("audio"))])]),
    )]))
    .unwrap_err();
    assert_eq!(
        unknown.message,
        "unsupported content block type: audio (hint: return a bare Attachment or list of Attachments for images/documents)"
    );

    let not_dict = parse_tool_result(PyValue::Int(3)).unwrap_err();
    assert_eq!(not_dict.message, "'int' object is not an instance of 'dict'");
    let none = parse_tool_result(PyValue::NoneValue).unwrap_err();
    assert_eq!(none.message, "'None' is not an instance of 'dict'");
}

#[test]
fn tool_execution_failures_are_execution_errors() {
    let ok = tool_execution_result(CallbackOutcome::Returned(text("hi"))).unwrap();
    assert!(matches!(ok, ParsedToolResult::Blocks { .. }));

    let bad = tool_execution_result(CallbackOutcome::Returned(PyValue::Int(1))).unwrap_err();
    assert_eq!(bad.code, "execution_error");
    assert_eq!(bad.message, "TypeError: 'int' object is not an instance of 'dict'");

    let raised = tool_execution_result(CallbackOutcome::Raised("ValueError: boom".into())).unwrap_err();
    assert_eq!(raised.code, "execution_error");
    assert_eq!(raised.message, "ValueError: boom");

    let join = tool_execution_result(CallbackOutcome::JoinFailed("task panicked".into())).unwrap_err();
    assert_eq!(join.message, "callback join failed: task panicked");
    assert_eq!(join.details, PyValue::NoneValue);
}

#[test]
fn schema_from_dict_or_json_text() {
    let d = dict(vec![("type", text("object"))]);
    assert_eq!(
        tool_schema_source(d).unwrap(),
        SchemaSource::Dict(dict(vec![("type", text("object"))]))
    );
    assert_eq!(
        tool_schema_source(text("{\"type\": \"object\"}")).unwrap(),
        SchemaSource::Json(object_schema())
    );
    let bad = tool_schema_source(text("{not json")).unwrap_err();
    assert_eq!(bad.kind, PyErrorKind::ValueError);
    assert_eq!(bad.message, serde_error("{not json"));
    let err = tool_schema_source(PyValue::Int(1)).unwrap_err();
    assert_eq!(err.message, "'int' object is not an instance of 'str'");
}

#[test]
fn json_text_parses_or_is_a_value_error() {
    assert_eq!(json_text_value("{\"type\": \"object\"}").unwrap(), object_schema());
    assert_eq!(json_text_value(" [1, true, null] ").unwrap(), serde_json::Value::Array(vec![
        serde_json::Value::from(1),
        serde_json::Value::Bool(true),
        serde_json::Value::Null,
    ]));
    let e = json_text_value("").unwrap_err();
    assert_eq!(e.kind, PyErrorKind::ValueError);
    assert_eq!(e.message, serde_error(""));
    assert!(e.message.starts_with("EOF while parsing a value"));
    let e = json_text_value("[1,]").unwrap_err();
    assert_eq!(e.message, serde_error("[1,]"));
    assert!(e.message.starts_with("trailing comma"));
}
