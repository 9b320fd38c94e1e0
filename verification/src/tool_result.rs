//! What a Python tool callback returns, read into a tool result.

use vstd::prelude::*;

use crate::content::{
    attachment_to_content_block, content_block_to_data_block, spec_data_block, DataBlock,
    DataBlockView, default_image_media_type, opt_view, spec_attachment_block,
    ContentBlock, ContentBlockView, ImageSource, ImageSourceView,
};
use crate::error::{err_view, ErrorView, PyErrorKind, SdkError};
use crate::hook_outcome::{error_text, render_error, CallbackOutcome};
use crate::hooks::ToolFailure;
use crate::json::{json_parse_error, json_parses, json_text_value};
use crate::text::{concat2, str_eq, string_from};
use crate::value::{
    bool_of, cast_error, dict_find, dict_get, dict_get_some, dict_lookup, dict_lookup_some, dict_take,
    extract_str, make_cast_error, spec_extract_str, str_of, PyValue,
};

verus! {

/// The text of an optional value when it is a `str`; anything else counts as
/// absent.
pub open spec fn lenient_str(o: Option<PyValue>) -> Option<Seq<char>> {
    match o {
        Some(v) => str_of(v),
        None => None,
    }
}

/// Whether `t` names one of the attachment constructors.
pub open spec fn is_attachment_kind(t: Seq<char>) -> bool {
    t == "image_url"@ || t == "image_base64"@ || t == "document_url"@ || t == "document_base64"@
}

/// The constructor kind a `document` dict stands for: `document_base64` when
/// it has a `data` key, else `document_url`.
pub open spec fn document_kind(e: Seq<(String, PyValue)>) -> Seq<char> {
    if dict_lookup(e, "data"@) is Some {
        "document_base64"@
    } else {
        "document_url"@
    }
}

/// The constructor kind a dict of type `t` is read as: a `document` dict by
/// [`document_kind`], the constructor kinds as themselves.
pub open spec fn attachment_kind_of(e: Seq<(String, PyValue)>, t: Seq<char>) -> Seq<char> {
    if t == "document"@ {
        document_kind(e)
    } else {
        t
    }
}

/// The content block a dict describes: `Ok(None)` for a type the SDK does not
/// know, or the error raised for a malformed dict.
pub open spec fn spec_dict_content_block(e: Seq<(String, PyValue)>) -> Result<
    Option<ContentBlockView>,
    ErrorView,
> {
    match dict_lookup(e, "type"@) {
        None => Err(err_view(PyErrorKind::ValueError, "content block missing 'type'"@)),
        Some(tv) => match spec_extract_str(tv) {
            Err(err) => Err(err),
            Ok(t) => if t == "text"@ {
                match dict_lookup(e, "text"@) {
                    None => Err(err_view(PyErrorKind::ValueError, "text content block missing 'text'"@)),
                    Some(x) => match spec_extract_str(x) {
                        Err(err) => Err(err),
                        Ok(text) => Ok(Some(ContentBlockView::Text(text))),
                    },
                }
            } else if t == "image"@ {
                match dict_lookup_some(e, "url"@) {
                    Some(u) => match spec_extract_str(u) {
                        Err(err) => Err(err),
                        Ok(url) => Ok(Some(ContentBlockView::Image(ImageSourceView::Url(url)))),
                    },
                    None => match dict_lookup(e, "data"@) {
                        None => Err(
                            err_view(
                                PyErrorKind::ValueError,
                                "image content block requires 'data' (base64) or 'url'"@,
                            ),
                        ),
                        Some(d) => match spec_extract_str(d) {
                            Err(err) => Err(err),
                            Ok(data) => Ok(
                                Some(
                                    ContentBlockView::Image(
                                        ImageSourceView::Base64 {
                                            media_type: match lenient_str(
                                                dict_lookup(e, "media_type"@),
                                            ) {
                                                Some(m) => m,
                                                None => default_image_media_type(),
                                            },
                                            data,
                                        },
                                    ),
                                ),
                            ),
                        },
                    },
                }
            } else if is_attachment_kind(t) || t == "document"@ {
                let dv = match dict_lookup(e, "data"@) {
                    Some(d) => Some(d),
                    None => dict_lookup(e, "url"@),
                };
                match dv {
                    None => Err(
                        err_view(PyErrorKind::ValueError, "attachment content block missing 'data'/'url'"@),
                    ),
                    Some(d) => match spec_extract_str(d) {
                        Err(err) => Err(err),
                        Ok(data) => match spec_attachment_block(
                            attachment_kind_of(e, t),
                            data,
                            lenient_str(dict_lookup_some(e, "name"@)),
                            lenient_str(dict_lookup_some(e, "media_type"@)),
                        ) {
                            Ok(b) => Ok(Some(b)),
                            Err(m) => Err(err_view(PyErrorKind::ValueError, m)),
                        },
                    },
                }
            } else {
                Ok(None)
            },
        },
    }
}

/// The mathematical form of an optional-block-or-error result.
pub open spec fn opt_block_result_view(r: Result<Option<ContentBlock>, SdkError>) -> Result<
    Option<ContentBlockView>,
    ErrorView,
> {
    match r {
        Ok(Some(b)) => Ok(Some(b@)),
        Ok(None) => Ok(None),
        Err(e) => Err(e@),
    }
}

/// The string held by an optional value, when it holds one.
fn lenient_string(o: Option<&PyValue>) -> (r: Option<String>)
    ensures
        opt_view(r) == lenient_str(
            match o {
                Some(v) => Some(*v),
                None => None,
            },
        ),
{
    match o {
        Some(PyValue::Str(s)) => Some(s.clone()),
        _ => None,
    }
}

/// Reads a content block given as a dict.
///
/// Accepts `{"type": "text", "text": ...}`, `{"type": "image", "url": ...}`,
/// `{"type": "image", "data": ..., "media_type"?: ...}` and the shapes of the
/// attachment constructors (`image_url`, `image_base64`, `document_url`,
/// `document_base64`) with `data` or `url`, and `{"type": "document", "name"?,
/// "media_type", "data" | "url"}`, a document given by its base64 `data` or,
/// without `data`, by its `url`. Another `type` gives `Ok(None)`.
pub fn dict_content_block(item_dict: &Vec<(String, PyValue)>) -> (r: Result<
    Option<ContentBlock>,
    SdkError,
>)
    ensures
        opt_block_result_view(r) == spec_dict_content_block(item_dict@),
{
    let tv = match dict_get(item_dict, "type") {
        Some(v) => v,
        None => return Err(SdkError::value_error(string_from("content block missing 'type'"))),
    };
    let block_type = match extract_str(tv) {
        Ok(t) => t,
        Err(e) => return Err(e),
    };
    if str_eq(block_type.as_str(), "text") {
        let x = match dict_get(item_dict, "text") {
            Some(x) => x,
            None => return Err(
                SdkError::value_error(string_from("text content block missing 'text'")),
            ),
        };
        match extract_str(x) {
            Ok(text) => Ok(Some(ContentBlock::Text { text })),
            Err(e) => Err(e),
        }
    } else if str_eq(block_type.as_str(), "image") {
        if let Some(u) = dict_get_some(item_dict, "url") {
            return match extract_str(u) {
                Ok(url) => Ok(Some(ContentBlock::Image { source: ImageSource::Url { url } })),
                Err(e) => Err(e),
            };
        }
        let d = match dict_get(item_dict, "data") {
            Some(d) => d,
            None => return Err(
                SdkError::value_error(
                    string_from("image content block requires 'data' (base64) or 'url'"),
                ),
            ),
        };
        let data = match extract_str(d) {
            Ok(data) => data,
            Err(e) => return Err(e),
        };
        let media_type = match lenient_string(dict_get(item_dict, "media_type")) {
            Some(m) => m,
            None => string_from("image/png"),
        };
        Ok(Some(ContentBlock::Image { source: ImageSource::Base64 { media_type, data } }))
    } else if str_eq(block_type.as_str(), "image_url") || str_eq(block_type.as_str(), "image_base64")
        || str_eq(block_type.as_str(), "document_url") || str_eq(
        block_type.as_str(),
        "document_base64",
    ) || str_eq(block_type.as_str(), "document") {
        let kind: &str = if str_eq(block_type.as_str(), "document") {
            if dict_get(item_dict, "data").is_some() {
                "document_base64"
            } else {
                "document_url"
            }
        } else {
            block_type.as_str()
        };
        let dv = match dict_get(item_dict, "data") {
            Some(d) => Some(d),
            None => dict_get(item_dict, "url"),
        };
        let d = match dv {
            Some(d) => d,
            None => return Err(
                SdkError::value_error(string_from("attachment content block missing 'data'/'url'")),
            ),
        };
        let data = match extract_str(d) {
            Ok(data) => data,
            Err(e) => return Err(e),
        };
        let name = lenient_string(dict_get_some(item_dict, "name"));
        let media_type = lenient_string(dict_get_some(item_dict, "media_type"));
        match attachment_to_content_block(kind, data.as_str(), name, media_type) {
            Ok(b) => Ok(Some(b)),
            Err(m) => Err(SdkError::value_error(m)),
        }
    } else {
        Ok(None)
    }
}

/// What a tool callback's return value becomes.
///
/// `DictAsJson` is a dict without a `content` key: the whole dict, rendered as
/// JSON text, becomes the single text block of the result.
#[derive(Debug, PartialEq, Eq)]
pub enum ParsedToolResult {
    Blocks { content: Vec<DataBlock>, details: PyValue, terminate: bool },
    DictAsJson { value: PyValue, terminate: bool },
}

/// The mathematical form of a [`ParsedToolResult`].
pub enum ParsedToolResultView {
    Blocks { content: Seq<DataBlockView>, details: PyValue, terminate: bool },
    DictAsJson { value: PyValue, terminate: bool },
}

/// The views of a list of blocks.
pub open spec fn blocks_view(bs: Seq<DataBlock>) -> Seq<DataBlockView> {
    bs.map_values(|b: DataBlock| b@)
}

impl View for ParsedToolResult {
    type V = ParsedToolResultView;

    open spec fn view(&self) -> ParsedToolResultView {
        match self {
            ParsedToolResult::Blocks { content, details, terminate } => ParsedToolResultView::Blocks {
                content: blocks_view(content@),
                details: *details,
                terminate: *terminate,
            },
            ParsedToolResult::DictAsJson { value, terminate } => ParsedToolResultView::DictAsJson {
                value: *value,
                terminate: *terminate,
            },
        }
    }
}

/// The mathematical form of a parse result.
pub open spec fn parsed_result_view(r: Result<ParsedToolResult, SdkError>) -> Result<
    ParsedToolResultView,
    ErrorView,
> {
    match r {
        Ok(p) => Ok(p@),
        Err(e) => Err(e@),
    }
}

/// The `terminate` flag a result dict sets: a `bool` stored under
/// `"terminate"`, anything else meaning `false`.
pub open spec fn terminate_flag(e: Seq<(String, PyValue)>) -> bool {
    match dict_lookup(e, "terminate"@) {
        Some(v) => match bool_of(v) {
            Some(b) => b,
            None => false,
        },
        None => false,
    }
}

/// The block one element of a returned list becomes.
pub open spec fn list_item_block(item: PyValue) -> Result<DataBlockView, ErrorView> {
    match item {
        PyValue::Attachment(b) => Ok(spec_data_block(b@)),
        PyValue::Str(s) => Ok(DataBlockView::Text { text: s@, mime_type: None }),
        _ => Err(err_view(PyErrorKind::ValueError, "list return items must be Attachment or str"@)),
    }
}

/// The hint that ends the error about an unknown content block type.
pub open spec fn unsupported_block_hint() -> Seq<char> {
    " (hint: return a bare Attachment or list of Attachments for images/documents)"@
}

/// The block one element of a `content` list becomes.
pub open spec fn content_item_block(item: PyValue) -> Result<DataBlockView, ErrorView> {
    match item {
        PyValue::Attachment(b) => Ok(spec_data_block(b@)),
        PyValue::Dict(e) => match spec_dict_content_block(e@) {
            Err(err) => Err(err),
            Ok(Some(cb)) => Ok(spec_data_block(cb)),
            Ok(None) => Err(
                err_view(
                    PyErrorKind::ValueError,
                    "unsupported content block type: "@ + match lenient_str(dict_lookup(e@, "type"@)) {
                        Some(t) => t,
                        None => Seq::empty(),
                    } + unsupported_block_hint(),
                ),
            ),
        },
        _ => Err(cast_error(item, "dict"@)),
    }
}

/// The blocks of a list of items, each read by `list_mode ? list_item_block :
/// content_item_block`; the first item that fails gives the error.
pub open spec fn items_blocks(items: Seq<PyValue>, list_mode: bool) -> Result<
    Seq<DataBlockView>,
    ErrorView,
>
    decreases items.len(),
{
    if items.len() == 0 {
        Ok(Seq::empty())
    } else {
        match items_blocks(items.drop_last(), list_mode) {
            Err(err) => Err(err),
            Ok(prefix) => match if list_mode {
                list_item_block(items.last())
            } else {
                content_item_block(items.last())
            } {
                Err(err) => Err(err),
                Ok(b) => Ok(prefix.push(b)),
            },
        }
    }
}

/// What a tool callback's return value `v` becomes, or the error raised.
///
/// An `Attachment` or a `str` is a single block; a list or tuple is a block
/// per element (each an `Attachment` or a `str`); a dict without `content` is
/// rendered whole as JSON; a dict with `content` gives its blocks, `details`
/// and `terminate`. Anything else is a `TypeError`.
pub open spec fn spec_parse_tool_result(v: PyValue) -> Result<ParsedToolResultView, ErrorView> {
    match v {
        PyValue::Attachment(b) => Ok(
            ParsedToolResultView::Blocks {
                content: seq![spec_data_block(b@)],
                details: PyValue::NoneValue,
                terminate: false,
            },
        ),
        PyValue::Str(s) => Ok(
            ParsedToolResultView::Blocks {
                content: seq![DataBlockView::Text { text: s@, mime_type: None }],
                details: PyValue::NoneValue,
                terminate: false,
            },
        ),
        PyValue::List(items) => match items_blocks(items@, true) {
            Err(err) => Err(err),
            Ok(content) => Ok(
                ParsedToolResultView::Blocks { content, details: PyValue::NoneValue, terminate: false },
            ),
        },
        PyValue::Tuple(items) => match items_blocks(items@, true) {
            Err(err) => Err(err),
            Ok(content) => Ok(
                ParsedToolResultView::Blocks { content, details: PyValue::NoneValue, terminate: false },
            ),
        },
        PyValue::Dict(e) => if dict_lookup(e@, "content"@) is None {
            Ok(ParsedToolResultView::DictAsJson { value: v, terminate: terminate_flag(e@) })
        } else {
            match match dict_lookup_some(e@, "content"@) {
                None => Ok(Seq::empty()),
                Some(PyValue::List(items)) => items_blocks(items@, false),
                Some(c) => Err(cast_error(c, "list"@)),
            } {
                Err(err) => Err(err),
                Ok(content) => Ok(
                    ParsedToolResultView::Blocks {
                        content,
                        details: match dict_lookup_some(e@, "details"@) {
                            Some(d) => d,
                            None => PyValue::NoneValue,
                        },
                        terminate: terminate_flag(e@),
                    },
                ),
            }
        },
        _ => Err(cast_error(v, "dict"@)),
    }
}

/// The mathematical form of a blocks-or-error result.
pub open spec fn blocks_result_view(r: Result<Vec<DataBlock>, SdkError>) -> Result<
    Seq<DataBlockView>,
    ErrorView,
> {
    match r {
        Ok(bs) => Ok(blocks_view(bs@)),
        Err(e) => Err(e@),
    }
}

/// The mathematical form of a block-or-error result.
pub open spec fn data_block_result_view(r: Result<DataBlock, SdkError>) -> Result<
    DataBlockView,
    ErrorView,
> {
    match r {
        Ok(b) => Ok(b@),
        Err(e) => Err(e@),
    }
}

fn list_item_to_block(item: &PyValue) -> (r: Result<DataBlock, SdkError>)
    ensures
        data_block_result_view(r) == list_item_block(*item),
{
    match item {
        PyValue::Attachment(b) => Ok(content_block_to_data_block(b)),
        PyValue::Str(s) => Ok(DataBlock::Text { text: s.clone(), mime_type: None }),
        _ => Err(SdkError::value_error(string_from("list return items must be Attachment or str"))),
    }
}

fn content_item_to_block(item: &PyValue) -> (r: Result<DataBlock, SdkError>)
    ensures
        data_block_result_view(r) == content_item_block(*item),
{
    match item {
        PyValue::Attachment(b) => Ok(content_block_to_data_block(b)),
        PyValue::Dict(e) => match dict_content_block(e) {
            Err(err) => Err(err),
            Ok(Some(cb)) => Ok(content_block_to_data_block(&cb)),
            Ok(None) => {
                let t = lenient_string(dict_get(e, "type"));
                let mut m = string_from("unsupported content block type: ");
                match t {
                    Some(t) => m.append(t.as_str()),
                    None => {},
                }
                m.append(
                    " (hint: return a bare Attachment or list of Attachments for images/documents)",
                );
                Err(SdkError::value_error(m))
            },
        },
        _ => Err(make_cast_error(item, "dict")),
    }
}

/// Reads a list of items into blocks, as [`items_blocks`] describes.
fn items_to_blocks(items: &Vec<PyValue>, list_mode: bool) -> (r: Result<Vec<DataBlock>, SdkError>)
    ensures
        blocks_result_view(r) == items_blocks(items@, list_mode),
{
    let mut blocks: Vec<DataBlock> = Vec::new();
    let mut i: usize = 0;
    assert(items@.take(0) =~= Seq::<PyValue>::empty());
    assert(blocks_view(blocks@) =~= Seq::<DataBlockView>::empty());
    while i < items.len()
        invariant
            i <= items.len(),
            items_blocks(items@.take(i as int), list_mode) == Ok::<Seq<DataBlockView>, ErrorView>(
                blocks_view(blocks@),
            ),
        decreases items.len() - i,
    {
        assert(items@.take(i + 1).drop_last() =~= items@.take(i as int));
        assert(items@.take(i + 1).last() == items@[i as int]);
        let b = if list_mode {
            list_item_to_block(&items[i])
        } else {
            content_item_to_block(&items[i])
        };
        match b {
            Ok(b) => {
                let ghost prev = blocks@;
                blocks.push(b);
                assert(blocks@.drop_last() =~= prev);
                assert(blocks_view(blocks@) =~= blocks_view(prev).push(b@));
                assert(items_blocks(items@.take(i + 1), list_mode) == Ok::<
                    Seq<DataBlockView>,
                    ErrorView,
                >(blocks_view(prev).push(b@)));
            },
            Err(e) => {
                proof {
                    lemma_items_blocks_error_persists(items@, list_mode, i as int + 1);
                }
                return Err(e);
            },
        }
        i += 1;
    }
    assert(items@.take(items.len() as int) =~= items@);
    Ok(blocks)
}

proof fn lemma_items_blocks_error_persists(items: Seq<PyValue>, list_mode: bool, k: int)
    requires
        0 <= k <= items.len(),
        items_blocks(items.take(k), list_mode) is Err,
    ensures
        items_blocks(items, list_mode) == items_blocks(items.take(k), list_mode),
    decreases items.len() - k,
{
    if k < items.len() {
        assert(items.take(k + 1).drop_last() =~= items.take(k));
        lemma_items_blocks_error_persists(items, list_mode, k + 1);
    } else {
        assert(items.take(k) =~= items);
    }
}

/// The `terminate` flag of a result dict.
fn read_terminate(e: &Vec<(String, PyValue)>) -> (r: bool)
    ensures
        r == terminate_flag(e@),
{
    match dict_get(e, "terminate") {
        Some(PyValue::Bool(b)) => *b,
        _ => false,
    }
}

fn single_block(b: DataBlock) -> (r: Vec<DataBlock>)
    ensures
        blocks_view(r@) == seq![b@],
{
    let mut r: Vec<DataBlock> = Vec::new();
    r.push(b);
    assert(blocks_view(r@) =~= seq![b@]);
    r
}

/// Reads the value a tool callback returned into a tool result.
///
/// Accepts a bare `Attachment`, a `str`, a list or tuple whose items are
/// `Attachment`s or `str`s, or a dict `{"content": [...], "details": ...,
/// "terminate": bool}` whose content items are `Attachment`s or block dicts.
/// A dict without `content` is passed on whole, to be rendered as JSON text.
pub fn parse_tool_result(obj: PyValue) -> (r: Result<ParsedToolResult, SdkError>)
    ensures
        parsed_result_view(r) == spec_parse_tool_result(obj),
{
    match obj {
        PyValue::Dict(entries) => parse_result_dict(entries),
        other => parse_result_other(&other),
    }
}

fn parse_result_other(obj: &PyValue) -> (r: Result<ParsedToolResult, SdkError>)
    requires
        !(obj is Dict),
    ensures
        parsed_result_view(r) == spec_parse_tool_result(*obj),
{
    match obj {
        PyValue::Attachment(b) => Ok(
            ParsedToolResult::Blocks {
                content: single_block(content_block_to_data_block(b)),
                details: PyValue::NoneValue,
                terminate: false,
            },
        ),
        PyValue::Str(s) => Ok(
            ParsedToolResult::Blocks {
                content: single_block(DataBlock::Text { text: s.clone(), mime_type: None }),
                details: PyValue::NoneValue,
                terminate: false,
            },
        ),
        PyValue::List(items) => match items_to_blocks(items, true) {
            Ok(content) => Ok(
                ParsedToolResult::Blocks { content, details: PyValue::NoneValue, terminate: false },
            ),
            Err(e) => Err(e),
        },
        PyValue::Tuple(items) => match items_to_blocks(items, true) {
            Ok(content) => Ok(
                ParsedToolResult::Blocks { content, details: PyValue::NoneValue, terminate: false },
            ),
            Err(e) => Err(e),
        },
        _ => Err(make_cast_error(obj, "dict")),
    }
}

fn parse_result_dict(entries: Vec<(String, PyValue)>) -> (r: Result<ParsedToolResult, SdkError>)
    ensures
        parsed_result_view(r) == spec_parse_tool_result(PyValue::Dict(entries)),
{
    let terminate = read_terminate(&entries);
    if dict_find(&entries, "content").is_none() {
        return Ok(ParsedToolResult::DictAsJson { value: PyValue::Dict(entries), terminate });
    }
    let content = match dict_get_some(&entries, "content") {
        None => Vec::new(),
        Some(PyValue::List(items)) => match items_to_blocks(items, false) {
            Ok(bs) => bs,
            Err(e) => return Err(e),
        },
        Some(c) => return Err(make_cast_error(c, "list")),
    };
    assert(blocks_view(Seq::<DataBlock>::empty()) =~= Seq::<DataBlockView>::empty());
    let details = match dict_take(entries, "details") {
        Some(value) => value,
        None => PyValue::NoneValue,
    };
    Ok(ParsedToolResult::Blocks { content, details, terminate })
}

/// How a tool call ends after its Python callback ran: the result the
/// callback returned, or an `execution_error` failure carrying the reason its
/// value could not be read, the exception it raised, or `callback join
/// failed: ` and the worker's failure.
pub open spec fn spec_tool_execution(o: CallbackOutcome) -> Result<
    ParsedToolResultView,
    (Seq<char>, Seq<char>),
> {
    match o {
        CallbackOutcome::Returned(v) => match spec_parse_tool_result(v) {
            Ok(p) => Ok(p),
            Err(e) => Err(("execution_error"@, error_text(e))),
        },
        CallbackOutcome::Raised(t) => Err(("execution_error"@, t@)),
        CallbackOutcome::JoinFailed(t) => Err(("execution_error"@, "callback join failed: "@ + t@)),
    }
}

/// The mathematical form of a tool execution's result.
pub open spec fn execution_view(r: Result<ParsedToolResult, ToolFailure>) -> Result<
    ParsedToolResultView,
    (Seq<char>, Seq<char>),
> {
    match r {
        Ok(p) => Ok(p@),
        Err(f) => Err((f.code@, f.message@)),
    }
}

fn execution_failure(message: String) -> (f: ToolFailure)
    ensures
        f.code@ == "execution_error"@,
        f.message == message,
        f.details == PyValue::NoneValue,
{
    ToolFailure { code: string_from("execution_error"), message, details: PyValue::NoneValue }
}

/// Ends a tool call from how its Python callback ran.
pub fn tool_execution_result(o: CallbackOutcome) -> (r: Result<ParsedToolResult, ToolFailure>)
    ensures
        execution_view(r) == spec_tool_execution(o),
        r matches Err(f) ==> f.details == PyValue::NoneValue,
{
    match o {
        CallbackOutcome::Returned(v) => match parse_tool_result(v) {
            Ok(p) => Ok(p),
            Err(e) => Err(execution_failure(render_error(&e))),
        },
        CallbackOutcome::Raised(t) => Err(execution_failure(t)),
        CallbackOutcome::JoinFailed(t) => Err(
            execution_failure(concat2("callback join failed: ", t.as_str())),
        ),
    }
}

/// A tool's parameter schema: a dict given as is, or the value parsed from
/// JSON text.
#[derive(Debug, PartialEq, Eq)]
pub enum SchemaSource {
    Dict(PyValue),
    Json(serde_json::Value),
}

/// Reads the `parameters_schema` argument of a tool factory: a dict is taken
/// as the schema; a `str` is parsed as JSON, and text that is not JSON is the
/// parser's `ValueError`; anything else is the `TypeError` of extracting a
/// `str`.
pub fn tool_schema_source(v: PyValue) -> (r: Result<SchemaSource, SdkError>)
    ensures
        match v {
            PyValue::Dict(_) => r == Ok::<SchemaSource, SdkError>(SchemaSource::Dict(v)),
            PyValue::Str(s) => {
                &&& r is Ok <==> json_parses(s@)
                &&& r matches Ok(src) ==> src is Json
                &&& r matches Err(e) ==> e@ == err_view(PyErrorKind::ValueError, json_parse_error(s@))
            },
            _ => r matches Err(e) && e@ == cast_error(v, "str"@),
        },
{
    match v {
        PyValue::Dict(e) => Ok(SchemaSource::Dict(PyValue::Dict(e))),
        PyValue::Str(s) => match json_text_value(s.as_str()) {
            Ok(j) => Ok(SchemaSource::Json(j)),
            Err(e) => Err(e),
        },
        other => Err(make_cast_error(&other, "str")),
    }
}


/// A plain string returned by a tool becomes one text block, with no details
/// and without ending the run.
pub proof fn law_string_result_is_one_text_block(s: String)
    ensures
        spec_parse_tool_result(PyValue::Str(s)) == Ok::<ParsedToolResultView, ErrorView>(
            ParsedToolResultView::Blocks {
                content: seq![DataBlockView::Text { text: s@, mime_type: None }],
                details: PyValue::NoneValue,
                terminate: false,
            },
        ),
{
}

/// A dict without a `content` key is rendered whole as the result, keeping
/// its `terminate` flag.
pub proof fn law_dict_without_content_is_rendered_whole(e: Vec<(String, PyValue)>)
    requires
        dict_lookup(e@, "content"@) is None,
    ensures
        spec_parse_tool_result(PyValue::Dict(e)) == Ok::<ParsedToolResultView, ErrorView>(
            ParsedToolResultView::DictAsJson { value: PyValue::Dict(e), terminate: terminate_flag(e@) },
        ),
{
}

/// Whether every item is an `Attachment` or a `str`.
pub open spec fn all_attachments_or_strs(items: Seq<PyValue>) -> bool {
    forall|i: int| 0 <= i < items.len() ==> ((#[trigger] items[i]) is Attachment || items[i] is Str)
}

/// A list whose items are all attachments or strings gives one block per
/// item, in order: the attachment's block, or a text block.
pub proof fn law_list_items_become_blocks_in_order(items: Seq<PyValue>)
    requires
        all_attachments_or_strs(items),
    ensures
        items_blocks(items, true) matches Ok(bs) && bs.len() == items.len() && forall|i: int|
            0 <= i < items.len() ==> list_item_block(items[i]) == Ok::<DataBlockView, ErrorView>(
                #[trigger] bs[i],
            ),
        items_blocks(items, true) matches Ok(bs) ==> forall|i: int|
            0 <= i < items.len() ==> (items[i] matches PyValue::Attachment(b) ==> #[trigger] bs[i]
                == spec_data_block(b@)) && (items[i] matches PyValue::Str(t) ==> bs[i]
                == DataBlockView::Text { text: t@, mime_type: None }),
    decreases items.len(),
{
    if items.len() > 0 {
        let prefix = items.drop_last();
        assert forall|i: int| 0 <= i < prefix.len() implies ((#[trigger] prefix[i]) is Attachment
            || prefix[i] is Str) by {
            assert(prefix[i] == items[i]);
        }
        law_list_items_become_blocks_in_order(prefix);
        let last = items.last();
        assert(last == items[items.len() - 1]);
        match items_blocks(prefix, true) {
            Ok(pbs) => {
                assert(list_item_block(last) is Ok);
                let b = list_item_block(last)->Ok_0;
                let bs = pbs.push(b);
                assert(items_blocks(items, true) == Ok::<Seq<DataBlockView>, ErrorView>(bs));
                assert forall|i: int| 0 <= i < items.len() implies list_item_block(items[i]) == Ok::<
                    DataBlockView,
                    ErrorView,
                >(#[trigger] bs[i]) by {
                    if i < prefix.len() {
                        assert(items[i] == prefix[i]);
                    }
                }
            },
            Err(_) => {},
        }
    }
}


/// Whether every item is an `Attachment`.
pub open spec fn all_attachments(items: Seq<PyValue>) -> bool {
    forall|i: int| 0 <= i < items.len() ==> (#[trigger] items[i]) is Attachment
}

proof fn lemma_content_attachments(items: Seq<PyValue>)
    requires
        all_attachments(items),
    ensures
        items_blocks(items, false) matches Ok(bs) && bs.len() == items.len() && forall|i: int|
            0 <= i < items.len() ==> (items[i] matches PyValue::Attachment(b) && #[trigger] bs[i]
                == spec_data_block(b@)),
    decreases items.len(),
{
    if items.len() > 0 {
        let prefix = items.drop_last();
        assert forall|i: int| 0 <= i < prefix.len() implies (#[trigger] prefix[i]) is Attachment by {
            assert(prefix[i] == items[i]);
        }
        lemma_content_attachments(prefix);
        let last = items.last();
        assert(last == items[items.len() - 1]);
        let pbs = items_blocks(prefix, false)->Ok_0;
        let b = content_item_block(last)->Ok_0;
        let bs = pbs.push(b);
        assert(items_blocks(items, false) == Ok::<Seq<DataBlockView>, ErrorView>(bs));
        assert forall|i: int| 0 <= i < items.len() implies (items[i] matches PyValue::Attachment(c)
            && #[trigger] bs[i] == spec_data_block(c@)) by {
            if i < prefix.len() {
                assert(items[i] == prefix[i]);
            }
        }
    }
}

/// A dict result whose `content` is a list of attachments gives one block per
/// attachment, in order, each the block the attachment gives when returned on
/// its own; the dict's `details` (unless `None`) and a boolean `terminate`
/// are carried over, and `terminate` is false when absent.
pub proof fn law_content_attachments_become_their_blocks(e: Vec<(String, PyValue)>, items: Vec<PyValue>)
    requires
        dict_lookup(e@, "content"@) == Some(PyValue::List(items)),
        all_attachments(items@),
    ensures
        spec_parse_tool_result(PyValue::Dict(e)) matches Ok(
            ParsedToolResultView::Blocks { content, details, terminate },
        ) && content.len() == items.len() && (forall|i: int|
            0 <= i < items.len() ==> (items@[i] matches PyValue::Attachment(b) && #[trigger] content[i]
                == spec_data_block(b@) && spec_parse_tool_result(items@[i]) == Ok::<
                ParsedToolResultView,
                ErrorView,
            >(
                ParsedToolResultView::Blocks {
                    content: seq![content[i]],
                    details: PyValue::NoneValue,
                    terminate: false,
                },
            ))) && (forall|d: PyValue| dict_lookup(e@, "details"@) == Some(d) && !(d is NoneValue)
            ==> details == d) && (dict_lookup(e@, "details"@) is None ==> details == PyValue::NoneValue)
            && (forall|t: bool| dict_lookup(e@, "terminate"@) == Some(PyValue::Bool(t)) ==> terminate == t)
            && (dict_lookup(e@, "terminate"@) is None ==> !terminate),
{
    lemma_content_attachments(items@);
}

} // verus!
