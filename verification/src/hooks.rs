//! What Python hook callbacks return, read into the decisions the agent loop
//! acts on, and what happens when a callback fails.

use vstd::prelude::*;

use crate::error::{err_view, ErrorView, PyErrorKind, SdkError};
use crate::text::{concat2, str_eq, string_from};
use crate::value::{
    bool_of, cast_error, dict_find, dict_get, dict_lookup, dict_take, dict_take2, extract_str,
    extract_usize, make_cast_error, spec_extract_str, spec_extract_usize, strings_view, PyValue,
};

verus! {

/// A tool failure: a code, the message shown to the model, and details.
#[derive(Debug, PartialEq, Eq)]
pub struct ToolFailure {
    pub code: String,
    pub message: String,
    pub details: PyValue,
}

/// The message a tool call denied by a before-tool-call hook carries when the
/// hook gives none.
pub open spec fn default_deny_message() -> Seq<char> {
    "tool call denied by before_tool_call hook"@
}

/// What a before-tool-call hook decided.
///
/// `DenyWithResult` carries the `content` and `details` of the tool-result
/// dict the hook denied with; [`deny_failure`] turns it into a failure once
/// the text of its content blocks is known.
#[derive(Debug, PartialEq, Eq)]
pub enum BeforeToolCallDecision {
    Allow,
    Modify(PyValue),
    Deny(ToolFailure),
    DenyWithResult { content: Option<PyValue>, details: PyValue },
}

/// The mathematical form of a before-tool-call decision.
pub enum BeforeToolCallView {
    Allow,
    Modify(PyValue),
    Deny { code: Seq<char>, message: Seq<char>, details: PyValue },
    DenyWithResult { content: Option<PyValue>, details: PyValue },
}

impl View for BeforeToolCallDecision {
    type V = BeforeToolCallView;

    open spec fn view(&self) -> BeforeToolCallView {
        match self {
            BeforeToolCallDecision::Allow => BeforeToolCallView::Allow,
            BeforeToolCallDecision::Modify(v) => BeforeToolCallView::Modify(*v),
            BeforeToolCallDecision::Deny(f) => BeforeToolCallView::Deny {
                code: f.code@,
                message: f.message@,
                details: f.details,
            },
            BeforeToolCallDecision::DenyWithResult { content, details } => BeforeToolCallView::DenyWithResult {
                content: *content,
                details: *details,
            },
        }
    }
}

/// The value stored under `key` when `v` is a dict.
pub open spec fn field_of(v: PyValue, key: Seq<char>) -> Option<PyValue> {
    match v {
        PyValue::Dict(e) => dict_lookup(e@, key),
        _ => None,
    }
}

/// The decision a before-tool-call hook's return value stands for.
///
/// `"allow"` and `"deny"` are accepted as strings; a dict names its `action`
/// (`allow`, `modify` with `args`, `deny` with a `result` dict).
pub open spec fn spec_before_tool_call_decision(raw: PyValue) -> Result<
    BeforeToolCallView,
    ErrorView,
> {
    match raw {
        PyValue::Str(s) => if s@ == "allow"@ {
            Ok(BeforeToolCallView::Allow)
        } else if s@ == "modify"@ {
            Err(err_view(PyErrorKind::ValueError, "action 'modify' requires a dict with 'args'"@))
        } else if s@ == "deny"@ {
            Ok(
                BeforeToolCallView::Deny {
                    code: "denied"@,
                    message: default_deny_message(),
                    details: PyValue::NoneValue,
                },
            )
        } else {
            Err(err_view(PyErrorKind::ValueError, "unknown decision: "@ + s@))
        },
        PyValue::Dict(e) => match dict_lookup(e@, "action"@) {
            None => Err(err_view(PyErrorKind::ValueError, "missing 'action'"@)),
            Some(a) => match spec_extract_str(a) {
                Err(err) => Err(err),
                Ok(act) => if act == "allow"@ {
                    Ok(BeforeToolCallView::Allow)
                } else if act == "modify"@ {
                    match dict_lookup(e@, "args"@) {
                        None => Err(err_view(PyErrorKind::ValueError, "missing 'args'"@)),
                        Some(x) => Ok(BeforeToolCallView::Modify(x)),
                    }
                } else if act == "deny"@ {
                    match dict_lookup(e@, "result"@) {
                        None => Err(err_view(PyErrorKind::ValueError, "missing 'result'"@)),
                        Some(res) => Ok(
                            BeforeToolCallView::DenyWithResult {
                                content: field_of(res, "content"@),
                                details: match field_of(res, "details"@) {
                                    Some(d) => d,
                                    None => PyValue::NoneValue,
                                },
                            },
                        ),
                    }
                } else {
                    Err(err_view(PyErrorKind::ValueError, "unknown action: "@ + act))
                },
            },
        },
        _ => Err(cast_error(raw, "dict"@)),
    }
}

/// The mathematical form of a before-tool-call result.
pub open spec fn before_tool_call_result_view(r: Result<BeforeToolCallDecision, SdkError>) -> Result<
    BeforeToolCallView,
    ErrorView,
> {
    match r {
        Ok(d) => Ok(d@),
        Err(e) => Err(e@),
    }
}

fn default_denial() -> (f: ToolFailure)
    ensures
        f.code@ == "denied"@,
        f.message@ == default_deny_message(),
        f.details == PyValue::NoneValue,
{
    ToolFailure {
        code: string_from("denied"),
        message: string_from("tool call denied by before_tool_call hook"),
        details: PyValue::NoneValue,
    }
}

/// Reads what a before-tool-call hook returned.
pub fn parse_before_tool_call_decision(raw: PyValue) -> (r: Result<BeforeToolCallDecision, SdkError>)
    ensures
        before_tool_call_result_view(r) == spec_before_tool_call_decision(raw),
{
    match raw {
        PyValue::Str(s) => {
            if str_eq(s.as_str(), "allow") {
                Ok(BeforeToolCallDecision::Allow)
            } else if str_eq(s.as_str(), "modify") {
                Err(SdkError::value_error(string_from("action 'modify' requires a dict with 'args'")))
            } else if str_eq(s.as_str(), "deny") {
                Ok(BeforeToolCallDecision::Deny(default_denial()))
            } else {
                Err(SdkError::value_error(concat2("unknown decision: ", s.as_str())))
            }
        },
        PyValue::Dict(e) => {
            let act = match dict_get(&e, "action") {
                None => return Err(SdkError::value_error(string_from("missing 'action'"))),
                Some(a) => match extract_str(a) {
                    Ok(act) => act,
                    Err(err) => return Err(err),
                },
            };
            if str_eq(act.as_str(), "allow") {
                Ok(BeforeToolCallDecision::Allow)
            } else if str_eq(act.as_str(), "modify") {
                match dict_take(e, "args") {
                    None => Err(SdkError::value_error(string_from("missing 'args'"))),
                    Some(x) => Ok(BeforeToolCallDecision::Modify(x)),
                }
            } else if str_eq(act.as_str(), "deny") {
                match dict_take(e, "result") {
                    None => Err(SdkError::value_error(string_from("missing 'result'"))),
                    Some(PyValue::Dict(re)) => {
                        proof {
                            reveal_strlit("content");
                            reveal_strlit("details");
                            assert("content"@[0] != "details"@[0]);
                        }
                        let (content, details) = dict_take2(re, "content", "details");
                        let details = match details {
                            Some(d) => d,
                            None => PyValue::NoneValue,
                        };
                        Ok(BeforeToolCallDecision::DenyWithResult { content, details })
                    },
                    Some(_) => Ok(
                        BeforeToolCallDecision::DenyWithResult {
                            content: None,
                            details: PyValue::NoneValue,
                        },
                    ),
                }
            } else {
                Err(SdkError::value_error(concat2("unknown action: ", act.as_str())))
            }
        },
        other => Err(make_cast_error(&other, "dict")),
    }
}

/// The lines of `s` joined with `"\n"`.
pub open spec fn join_lines(s: Seq<Seq<char>>) -> Seq<char>
    decreases s.len(),
{
    if s.len() == 0 {
        Seq::empty()
    } else if s.len() == 1 {
        s[0]
    } else {
        join_lines(s.drop_last()) + "\n"@ + s.last()
    }
}

/// The message of a failure whose content had the text blocks `texts`
/// (`None` when the content could not be read as blocks).
pub open spec fn deny_message(texts: Option<Seq<Seq<char>>>) -> Seq<char> {
    match texts {
        Some(t) => if join_lines(t).len() > 0 {
            join_lines(t)
        } else {
            default_deny_message()
        },
        None => default_deny_message(),
    }
}

/// The texts of a string list, or `None`.
pub open spec fn opt_strings_view(o: Option<Vec<String>>) -> Option<Seq<Seq<char>>> {
    match o {
        Some(v) => Some(strings_view(v@)),
        None => None,
    }
}

/// Joins strings with `"\n"`.
pub fn join_with_newlines(v: &Vec<String>) -> (r: String)
    ensures
        r@ == join_lines(strings_view(v@)),
{
    let mut r = String::new();
    let mut i: usize = 0;
    while i < v.len()
        invariant
            i <= v.len(),
            r@ == join_lines(strings_view(v@.take(i as int))),
        decreases v.len() - i,
    {
        assert(strings_view(v@.take(i + 1)).drop_last() =~= strings_view(v@.take(i as int)));
        assert(strings_view(v@.take(i + 1)).last() == v@[i as int]@);
        if i > 0 {
            r.append("\n");
        } else {
            assert(strings_view(v@.take(0)) =~= Seq::<Seq<char>>::empty());
        }
        r.append(v[i].as_str());
        i += 1;
    }
    assert(v@.take(v.len() as int) =~= v@);
    r
}

/// The failure a hook's denial with a result dict becomes: its text blocks
/// (`texts`, `None` when its content could not be read as blocks) joined by
/// newlines, or the default message when that is empty, and its details.
pub fn deny_failure(texts: Option<Vec<String>>, details: PyValue) -> (f: ToolFailure)
    ensures
        f.code@ == "denied"@,
        f.message@ == deny_message(opt_strings_view(texts)),
        f.details == details,
{
    let message = match texts {
        Some(t) => {
            let joined = join_with_newlines(&t);
            if joined.as_str().unicode_len() > 0 {
                joined
            } else {
                string_from("tool call denied by before_tool_call hook")
            }
        },
        None => string_from("tool call denied by before_tool_call hook"),
    };
    ToolFailure { code: string_from("denied"), message, details }
}

/// How a hook callback's run ended, when its own result is not needed.
#[derive(Debug, Clone, Copy, PartialEq, Eq)]
pub enum HookFailure {
    /// The callback raised, or its return value could not be read.
    CallbackError,
    /// The worker thread that ran the callback failed.
    JoinError,
}

/// The denial a before-tool-call hook's failure becomes: tool calls are
/// refused when the hook cannot decide (fail closed).
pub open spec fn hook_failure_denial_message(f: HookFailure) -> Seq<char> {
    match f {
        HookFailure::CallbackError => "tool call denied: before_tool_call hook error"@,
        HookFailure::JoinError => "tool call denied: before_tool_call hook join error"@,
    }
}

/// The decision taken when a before-tool-call hook fails: a denial with code
/// `hook_error`.
pub fn before_tool_call_on_failure(f: HookFailure) -> (d: BeforeToolCallDecision)
    ensures
        d@ == (BeforeToolCallView::Deny {
            code: "hook_error"@,
            message: hook_failure_denial_message(f),
            details: PyValue::NoneValue,
        }),
{
    let message = match f {
        HookFailure::CallbackError => string_from("tool call denied: before_tool_call hook error"),
        HookFailure::JoinError => string_from("tool call denied: before_tool_call hook join error"),
    };
    BeforeToolCallDecision::Deny(
        ToolFailure { code: string_from("hook_error"), message, details: PyValue::NoneValue },
    )
}

/// What an after-tool-call hook decided. `Replace` carries the raw `content`
/// value (read as blocks by the runtime, an unreadable one counting as no
/// blocks), the details and the `terminate` flag of the replacement result.
#[derive(Debug, PartialEq, Eq)]
pub enum AfterToolCallDecision {
    Passthrough,
    Replace { content: Option<PyValue>, details: PyValue, terminate: bool },
}

/// The decision an after-tool-call hook's return value stands for: the
/// string `"passthrough"`, or a dict whose `action` is `passthrough` or
/// `patch`.
pub open spec fn spec_after_tool_call_decision(raw: PyValue) -> Result<
    AfterToolCallDecision,
    ErrorView,
> {
    match raw {
        PyValue::Str(s) => if s@ == "passthrough"@ {
            Ok(AfterToolCallDecision::Passthrough)
        } else if s@ == "patch"@ {
            Err(err_view(PyErrorKind::ValueError, "action 'patch' requires a dict"@))
        } else {
            Err(err_view(PyErrorKind::ValueError, "unknown decision: "@ + s@))
        },
        PyValue::Dict(e) => match dict_lookup(e@, "action"@) {
            None => Err(err_view(PyErrorKind::ValueError, "missing 'action'"@)),
            Some(a) => match spec_extract_str(a) {
                Err(err) => Err(err),
                Ok(act) => if act == "passthrough"@ {
                    Ok(AfterToolCallDecision::Passthrough)
                } else if act == "patch"@ {
                    Ok(
                        AfterToolCallDecision::Replace {
                            content: dict_lookup(e@, "content"@),
                            details: match dict_lookup(e@, "details"@) {
                                Some(d) => d,
                                None => PyValue::NoneValue,
                            },
                            terminate: match dict_lookup(e@, "terminate"@) {
                                Some(t) => match bool_of(t) {
                                    Some(b) => b,
                                    None => false,
                                },
                                None => false,
                            },
                        },
                    )
                } else {
                    Err(err_view(PyErrorKind::ValueError, "unknown action: "@ + act))
                },
            },
        },
        _ => Err(cast_error(raw, "dict"@)),
    }
}

/// The mathematical form of an after-tool-call result.
pub open spec fn after_tool_call_result_view(r: Result<AfterToolCallDecision, SdkError>) -> Result<
    AfterToolCallDecision,
    ErrorView,
> {
    match r {
        Ok(d) => Ok(d),
        Err(e) => Err(e@),
    }
}

/// Reads what an after-tool-call hook returned.
pub fn parse_after_tool_call_decision(raw: PyValue) -> (r: Result<AfterToolCallDecision, SdkError>)
    ensures
        after_tool_call_result_view(r) == spec_after_tool_call_decision(raw),
{
    match raw {
        PyValue::Str(s) => {
            if str_eq(s.as_str(), "passthrough") {
                Ok(AfterToolCallDecision::Passthrough)
            } else if str_eq(s.as_str(), "patch") {
                Err(SdkError::value_error(string_from("action 'patch' requires a dict")))
            } else {
                Err(SdkError::value_error(concat2("unknown decision: ", s.as_str())))
            }
        },
        PyValue::Dict(e) => {
            let act = match dict_get(&e, "action") {
                None => return Err(SdkError::value_error(string_from("missing 'action'"))),
                Some(a) => match extract_str(a) {
                    Ok(act) => act,
                    Err(err) => return Err(err),
                },
            };
            if str_eq(act.as_str(), "passthrough") {
                Ok(AfterToolCallDecision::Passthrough)
            } else if str_eq(act.as_str(), "patch") {
                let terminate = match dict_get(&e, "terminate") {
                    Some(PyValue::Bool(b)) => *b,
                    _ => false,
                };
                proof {
                    reveal_strlit("content");
                    reveal_strlit("details");
                    assert("content"@[0] != "details"@[0]);
                }
                let (content, details) = dict_take2(e, "content", "details");
                let details = match details {
                    Some(d) => d,
                    None => PyValue::NoneValue,
                };
                Ok(AfterToolCallDecision::Replace { content, details, terminate })
            } else {
                Err(SdkError::value_error(concat2("unknown action: ", act.as_str())))
            }
        },
        other => Err(make_cast_error(&other, "dict")),
    }
}

/// What a before-compaction hook decided. `Override` carries the raw summary
/// message (read as a message by the runtime), the id of the first entry to
/// keep (parsed as an entry id by the runtime) and the token counts.
#[derive(Debug, PartialEq, Eq)]
pub enum BeforeCompactDecision {
    Proceed,
    Skip,
    Compact,
    Override { summary: PyValue, first_kept_entry: String, tokens_before: usize, tokens_after: usize },
}

/// The mathematical form of a before-compaction decision.
pub enum BeforeCompactView {
    Proceed,
    Skip,
    Compact,
    Override {
        summary: PyValue,
        first_kept_entry: Seq<char>,
        tokens_before: usize,
        tokens_after: usize,
    },
}

impl View for BeforeCompactDecision {
    type V = BeforeCompactView;

    open spec fn view(&self) -> BeforeCompactView {
        match self {
            BeforeCompactDecision::Proceed => BeforeCompactView::Proceed,
            BeforeCompactDecision::Skip => BeforeCompactView::Skip,
            BeforeCompactDecision::Compact => BeforeCompactView::Compact,
            BeforeCompactDecision::Override {
                summary,
                first_kept_entry,
                tokens_before,
                tokens_after,
            } => BeforeCompactView::Override {
                summary: *summary,
                first_kept_entry: first_kept_entry@,
                tokens_before: *tokens_before,
                tokens_after: *tokens_after,
            },
        }
    }
}

/// What the runtime made of an override's `summary` value when it read it
/// as a message: readable, not convertible to JSON (the conversion's error),
/// or JSON that is no message (the reader's complaint).
#[derive(Debug, PartialEq, Eq)]
pub enum SummaryCheck {
    Readable,
    Unconvertible(SdkError),
    NotAMessage(String),
}

/// The value under `summary` of a dict the hook returned, which the runtime
/// reads as a message before the override's other fields are looked at.
pub fn compact_summary_value(raw: &PyValue) -> (r: Option<&PyValue>)
    ensures
        match *raw {
            PyValue::Dict(e) => match r {
                Some(v) => dict_lookup(e@, "summary"@) == Some(*v),
                None => dict_lookup(e@, "summary"@) is None,
            },
            _ => r is None,
        },
{
    match raw {
        PyValue::Dict(e) => dict_get(e, "summary"),
        _ => None,
    }
}

/// The text under `first_kept_entry` of a dict the hook returned, when it is
/// a `str`; the runtime parses it as an entry id.
pub fn compact_first_kept_text(raw: &PyValue) -> (r: Option<&String>)
    ensures
        match *raw {
            PyValue::Dict(e) => match r {
                Some(t) => dict_lookup(e@, "first_kept_entry"@) == Some(PyValue::Str(*t)),
                None => !(dict_lookup(e@, "first_kept_entry"@) matches Some(PyValue::Str(_))),
            },
            _ => r is None,
        },
{
    match raw {
        PyValue::Dict(e) => match dict_get(e, "first_kept_entry") {
            Some(PyValue::Str(t)) => Some(t),
            _ => None,
        },
        _ => None,
    }
}

/// The error for a summary the runtime could not read as a message (only
/// consulted when the check is not `Readable`).
pub open spec fn summary_error(c: SummaryCheck) -> ErrorView {
    match c {
        SummaryCheck::Unconvertible(err) => err@,
        SummaryCheck::NotAMessage(m) => err_view(PyErrorKind::ValueError, "invalid summary: "@ + m@),
        SummaryCheck::Readable => err_view(PyErrorKind::ValueError, "invalid summary: "@),
    }
}

/// The token count stored under `key`, or `default` when there is none.
pub open spec fn token_count(e: Seq<(String, PyValue)>, key: Seq<char>, default: usize) -> Result<
    usize,
    ErrorView,
> {
    match dict_lookup(e, key) {
        None => Ok(default),
        Some(v) => spec_extract_usize(v),
    }
}

/// The message when an override names no entry to keep.
pub open spec fn missing_first_kept_message() -> Seq<char> {
    "missing 'first_kept_entry' \u{2014} must be one of ctx['entry_ids']"@
}

/// The decision a before-compaction hook's return value stands for.
///
/// The strings `proceed`, `skip`, `compact` are accepted; a dict names its
/// `action`, and an `override` needs `summary` and `first_kept_entry`, with
/// `tokens_before` defaulting to `estimated_tokens` and `tokens_after` to 0.
/// The summary must be readable as a message (`summary_check`) before the
/// other fields are read, and the first kept entry a valid entry id
/// (`entry_problem` is the runtime's complaint otherwise) before the token
/// counts are.
pub open spec fn spec_before_compact_decision(
    raw: PyValue,
    estimated_tokens: usize,
    summary_check: SummaryCheck,
    entry_problem: Option<String>,
) -> Result<
    BeforeCompactView,
    ErrorView,
> {
    match raw {
        PyValue::Str(s) => if s@ == "proceed"@ {
            Ok(BeforeCompactView::Proceed)
        } else if s@ == "skip"@ {
            Ok(BeforeCompactView::Skip)
        } else if s@ == "compact"@ {
            Ok(BeforeCompactView::Compact)
        } else if s@ == "override"@ {
            Err(err_view(PyErrorKind::ValueError, "action 'override' requires a dict with 'summary'"@))
        } else {
            Err(err_view(PyErrorKind::ValueError, "unknown decision: "@ + s@))
        },
        PyValue::Dict(e) => match dict_lookup(e@, "action"@) {
            None => Err(err_view(PyErrorKind::ValueError, "missing 'action'"@)),
            Some(a) => match spec_extract_str(a) {
                Err(err) => Err(err),
                Ok(act) => if act == "proceed"@ {
                    Ok(BeforeCompactView::Proceed)
                } else if act == "skip"@ {
                    Ok(BeforeCompactView::Skip)
                } else if act == "compact"@ {
                    Ok(BeforeCompactView::Compact)
                } else if act == "override"@ {
                    match dict_lookup(e@, "summary"@) {
                        None => Err(err_view(PyErrorKind::ValueError, "missing 'summary'"@)),
                        Some(summary) => if !(summary_check is Readable) {
                            Err(summary_error(summary_check))
                        } else { match dict_lookup(e@, "first_kept_entry"@) {
                            None => Err(err_view(PyErrorKind::ValueError, missing_first_kept_message())),
                            Some(fk) => match spec_extract_str(fk) {
                                Err(err) => Err(err),
                                Ok(first) => if entry_problem is Some {
                                    Err(err_view(
                                        PyErrorKind::ValueError,
                                        "invalid first_kept_entry: "@ + entry_problem->0@,
                                    ))
                                } else { match token_count(e@, "tokens_before"@, estimated_tokens) {
                                    Err(err) => Err(err),
                                    Ok(before) => match token_count(e@, "tokens_after"@, 0) {
                                        Err(err) => Err(err),
                                        Ok(after) => Ok(
                                            BeforeCompactView::Override {
                                                summary,
                                                first_kept_entry: first,
                                                tokens_before: before,
                                                tokens_after: after,
                                            },
                                        ),
                                    },
                                } },
                            },
                        } },
                    }
                } else {
                    Err(err_view(PyErrorKind::ValueError, "unknown action: "@ + act))
                },
            },
        },
        _ => Err(cast_error(raw, "dict"@)),
    }
}

/// The mathematical form of a before-compaction result.
pub open spec fn before_compact_result_view(r: Result<BeforeCompactDecision, SdkError>) -> Result<
    BeforeCompactView,
    ErrorView,
> {
    match r {
        Ok(d) => Ok(d@),
        Err(e) => Err(e@),
    }
}

fn read_token_count(e: &Vec<(String, PyValue)>, key: &str, default: usize) -> (r: Result<
    usize,
    SdkError,
>)
    ensures
        match r {
            Ok(n) => token_count(e@, key@, default) == Ok::<usize, ErrorView>(n),
            Err(err) => token_count(e@, key@, default) == Err::<usize, ErrorView>(err@),
        },
{
    match dict_get(e, key) {
        None => Ok(default),
        Some(v) => extract_usize(v),
    }
}

/// Reads what a before-compaction hook returned; `estimated_tokens` is the
/// default for an override's `tokens_before`. `summary_check` is what the
/// runtime made of the value under `summary`, and `entry_problem` its
/// complaint about the text under `first_kept_entry`, if any.
pub fn parse_before_compact_decision(
    raw: PyValue,
    estimated_tokens: usize,
    summary_check: SummaryCheck,
    entry_problem: Option<String>,
) -> (r: Result<BeforeCompactDecision, SdkError>)
    ensures
        before_compact_result_view(r) == spec_before_compact_decision(
            raw,
            estimated_tokens,
            summary_check,
            entry_problem,
        ),
{
    match raw {
        PyValue::Str(s) => {
            if str_eq(s.as_str(), "proceed") {
                Ok(BeforeCompactDecision::Proceed)
            } else if str_eq(s.as_str(), "skip") {
                Ok(BeforeCompactDecision::Skip)
            } else if str_eq(s.as_str(), "compact") {
                Ok(BeforeCompactDecision::Compact)
            } else if str_eq(s.as_str(), "override") {
                Err(SdkError::value_error(string_from("action 'override' requires a dict with 'summary'")))
            } else {
                Err(SdkError::value_error(concat2("unknown decision: ", s.as_str())))
            }
        },
        PyValue::Dict(e) => {
            let act = match dict_get(&e, "action") {
                None => return Err(SdkError::value_error(string_from("missing 'action'"))),
                Some(a) => match extract_str(a) {
                    Ok(act) => act,
                    Err(err) => return Err(err),
                },
            };
            if str_eq(act.as_str(), "proceed") {
                Ok(BeforeCompactDecision::Proceed)
            } else if str_eq(act.as_str(), "skip") {
                Ok(BeforeCompactDecision::Skip)
            } else if str_eq(act.as_str(), "compact") {
                Ok(BeforeCompactDecision::Compact)
            } else if str_eq(act.as_str(), "override") {
                if dict_find(&e, "summary").is_none() {
                    return Err(SdkError::value_error(string_from("missing 'summary'")));
                }
                match summary_check {
                    SummaryCheck::Readable => {},
                    SummaryCheck::Unconvertible(err) => return Err(err),
                    SummaryCheck::NotAMessage(m) => return Err(
                        SdkError::value_error(concat2("invalid summary: ", m.as_str())),
                    ),
                }
                let first = match dict_get(&e, "first_kept_entry") {
                    None => return Err(
                        SdkError::value_error(
                            string_from("missing 'first_kept_entry' \u{2014} must be one of ctx['entry_ids']"),
                        ),
                    ),
                    Some(fk) => match extract_str(fk) {
                        Ok(f) => f,
                        Err(err) => return Err(err),
                    },
                };
                if let Some(m) = entry_problem {
                    return Err(SdkError::value_error(concat2("invalid first_kept_entry: ", m.as_str())));
                }
                let before = match read_token_count(&e, "tokens_before", estimated_tokens) {
                    Ok(n) => n,
                    Err(err) => return Err(err),
                };
                let after = match read_token_count(&e, "tokens_after", 0) {
                    Ok(n) => n,
                    Err(err) => return Err(err),
                };
                match dict_take(e, "summary") {
                    Some(summary) => Ok(
                        BeforeCompactDecision::Override {
                            summary,
                            first_kept_entry: first,
                            tokens_before: before,
                            tokens_after: after,
                        },
                    ),
                    None => Err(SdkError::value_error(string_from("missing 'summary'"))),
                }
            } else {
                Err(SdkError::value_error(concat2("unknown action: ", act.as_str())))
            }
        },
        other => Err(make_cast_error(&other, "dict")),
    }
}

/// The name a hook uses for a before-compaction decision.
pub open spec fn compact_decision_name(d: BeforeCompactView) -> Seq<char> {
    match d {
        BeforeCompactView::Proceed => "proceed"@,
        BeforeCompactView::Skip => "skip"@,
        BeforeCompactView::Compact => "compact"@,
        BeforeCompactView::Override { .. } => "override"@,
    }
}

/// Whether `n` names a decision that needs nothing besides its name.
pub open spec fn is_plain_compact_name(n: Seq<char>) -> bool {
    n == "proceed"@ || n == "skip"@ || n == "compact"@
}

/// A before-compaction hook gets the decision it names: returning the string
/// `proceed`, `skip` or `compact`, or a dict whose `action` is one of them,
/// yields that decision, and any decision read from a string or a dict is the
/// one its name or `action` names.
pub proof fn law_compact_decisions_follow_their_names(
    s: String,
    e: Vec<(String, PyValue)>,
    estimated_tokens: usize,
    summary_check: SummaryCheck,
    entry_problem: Option<String>,
)
    ensures
        is_plain_compact_name(s@) ==> (spec_before_compact_decision(
            PyValue::Str(s),
            estimated_tokens,
            summary_check,
            entry_problem,
        ) matches Ok(d) && compact_decision_name(d) == s@),
        spec_before_compact_decision(PyValue::Str(s), estimated_tokens, summary_check, entry_problem)
            matches Ok(d) ==> compact_decision_name(d) == s@,
        dict_lookup(e@, "action"@) == Some(PyValue::Str(s)) && is_plain_compact_name(s@)
            ==> (spec_before_compact_decision(
            PyValue::Dict(e),
            estimated_tokens,
            summary_check,
            entry_problem,
        ) matches Ok(d) && compact_decision_name(d) == s@),
        dict_lookup(e@, "action"@) == Some(PyValue::Str(s)) ==> (spec_before_compact_decision(
            PyValue::Dict(e),
            estimated_tokens,
            summary_check,
            entry_problem,
        ) matches Ok(d) ==> compact_decision_name(d) == s@),
{
    reveal_strlit("proceed");
    reveal_strlit("skip");
    reveal_strlit("compact");
    reveal_strlit("override");
    assert("proceed"@.len() == 7 && "compact"@.len() == 7 && "skip"@.len() == 4);
    assert("override"@.len() == 8);
    assert("proceed"@[0] != "compact"@[0]);
}

/// The action name of a before-tool-call decision.
pub open spec fn tool_call_decision_name(d: BeforeToolCallView) -> Seq<char> {
    match d {
        BeforeToolCallView::Allow => "allow"@,
        BeforeToolCallView::Modify(_) => "modify"@,
        BeforeToolCallView::Deny { .. } => "deny"@,
        BeforeToolCallView::DenyWithResult { .. } => "deny"@,
    }
}

/// A before-tool-call hook gets the decision it names: the strings `allow`
/// and `deny` are read as those decisions, a dict's `action` names the
/// decision it gives, and a `modify` dict passes its `args` on unchanged.
pub proof fn law_tool_call_decisions_follow_their_names(s: String, e: Vec<(String, PyValue)>)
    ensures
        (s@ == "allow"@ || s@ == "deny"@) ==> (spec_before_tool_call_decision(PyValue::Str(s)) matches Ok(
            d,
        ) && tool_call_decision_name(d) == s@),
        spec_before_tool_call_decision(PyValue::Str(s)) matches Ok(d) ==> tool_call_decision_name(d)
            == s@,
        dict_lookup(e@, "action"@) == Some(PyValue::Str(s)) ==> (spec_before_tool_call_decision(
            PyValue::Dict(e),
        ) matches Ok(d) ==> tool_call_decision_name(d) == s@),
        dict_lookup(e@, "action"@) == Some(PyValue::Str(s)) && s@ == "allow"@
            ==> spec_before_tool_call_decision(PyValue::Dict(e)) == Ok::<BeforeToolCallView, ErrorView>(
            BeforeToolCallView::Allow,
        ),
        forall|x: PyValue|
            dict_lookup(e@, "action"@) == Some(PyValue::Str(s)) && s@ == "modify"@ && dict_lookup(
                e@,
                "args"@,
            ) == Some(x) ==> spec_before_tool_call_decision(PyValue::Dict(e)) == Ok::<
                BeforeToolCallView,
                ErrorView,
            >(BeforeToolCallView::Modify(x)),
{
    reveal_strlit("allow");
    reveal_strlit("modify");
    reveal_strlit("deny");
    assert("allow"@.len() == 5 && "modify"@.len() == 6 && "deny"@.len() == 4);
}

/// The action name of an after-tool-call decision.
pub open spec fn after_decision_name(d: AfterToolCallDecision) -> Seq<char> {
    match d {
        AfterToolCallDecision::Passthrough => "passthrough"@,
        AfterToolCallDecision::Replace { .. } => "patch"@,
    }
}

/// An after-tool-call hook gets the decision it names (`passthrough` as a
/// string or an `action`; `patch` as an `action`), and a patch carries the
/// dict's `content` as given and its `details` (`None` when absent).
pub proof fn law_after_tool_call_decisions_follow_their_names(s: String, e: Vec<(String, PyValue)>)
    ensures
        s@ == "passthrough"@ ==> spec_after_tool_call_decision(PyValue::Str(s)) == Ok::<
            AfterToolCallDecision,
            ErrorView,
        >(AfterToolCallDecision::Passthrough),
        spec_after_tool_call_decision(PyValue::Str(s)) matches Ok(d) ==> after_decision_name(d) == s@,
        dict_lookup(e@, "action"@) == Some(PyValue::Str(s)) ==> (spec_after_tool_call_decision(
            PyValue::Dict(e),
        ) matches Ok(d) ==> after_decision_name(d) == s@),
        dict_lookup(e@, "action"@) == Some(PyValue::Str(s)) && s@ == "patch"@ ==> (
        spec_after_tool_call_decision(PyValue::Dict(e)) matches Ok(
            AfterToolCallDecision::Replace { content, details, .. },
        ) && content == dict_lookup(e@, "content"@) && (dict_lookup(e@, "details"@) is None ==> details
            == PyValue::NoneValue) && (forall|d: PyValue|
            dict_lookup(e@, "details"@) == Some(d) ==> details == d)),
{
    reveal_strlit("passthrough");
    reveal_strlit("patch");
    assert("passthrough"@.len() == 11 && "patch"@.len() == 5);
}

} // verus!
