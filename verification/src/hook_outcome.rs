//! What the agent loop takes from the run of a hook callback: the value the
//! callback returned, the exception it raised, or the failure of the worker
//! thread that ran it.

use vstd::prelude::*;

use crate::error::{err_view, ErrorView, PyErrorKind, SdkError};
use crate::hooks::{
    before_tool_call_on_failure, hook_failure_denial_message, parse_after_tool_call_decision,
    parse_before_compact_decision, parse_before_tool_call_decision, spec_after_tool_call_decision,
    spec_before_compact_decision, spec_before_tool_call_decision, AfterToolCallDecision,
    BeforeCompactDecision, BeforeCompactView, BeforeToolCallDecision, BeforeToolCallView,
    HookFailure, SummaryCheck,
};
use crate::text::{ascii_lower, chars_eq_str, concat2, eq_ignore_ascii_case, lower_chars, string_from};
use crate::thinking::{named_level, parse_hook_thinking_level, ThinkingLevel};
use crate::content::opt_view;
use crate::value::{
    all_strs, cast_error, dict_get, dict_lookup, dict_take, extract_str, make_cast_error, py_type_name,
    py_type_of, spec_extract_str, strings_view, strs_text, PyValue,
};

verus! {

/// How the run of a Python callback ended.
#[derive(Debug, PartialEq, Eq)]
pub enum CallbackOutcome {
    /// The callback returned this value.
    Returned(PyValue),
    /// The callback raised; the exception as Python renders it, such as
    /// `"ValueError: boom"`.
    Raised(String),
    /// The worker thread that ran the callback failed; the failure's text.
    JoinFailed(String),
}

/// The name of a Python exception class.
pub open spec fn kind_label(k: PyErrorKind) -> Seq<char> {
    match k {
        PyErrorKind::ValueError => "ValueError"@,
        PyErrorKind::TypeError => "TypeError"@,
        PyErrorKind::RuntimeError => "RuntimeError"@,
        PyErrorKind::KeyError => "KeyError"@,
        PyErrorKind::OverflowError => "OverflowError"@,
    }
}

/// An error as Python renders a raised exception: the class, a colon, and
/// the message (quoted for a `KeyError`, whose text is the repr of its key).
pub open spec fn error_text(e: ErrorView) -> Seq<char> {
    if e.kind == PyErrorKind::KeyError {
        kind_label(e.kind) + ": '"@ + e.message + "'"@
    } else {
        kind_label(e.kind) + ": "@ + e.message
    }
}

/// Renders an error as Python renders the exception it stands for.
pub fn render_error(e: &SdkError) -> (r: String)
    ensures
        r@ == error_text(e@),
{
    let label = match e.kind {
        PyErrorKind::ValueError => "ValueError",
        PyErrorKind::TypeError => "TypeError",
        PyErrorKind::RuntimeError => "RuntimeError",
        PyErrorKind::KeyError => "KeyError",
        PyErrorKind::OverflowError => "OverflowError",
    };
    let mut r = string_from(label);
    match e.kind {
        PyErrorKind::KeyError => {
            r.append(": '");
            r.append(e.message.as_str());
            r.append("'");
        },
        _ => {
            r.append(": ");
            r.append(e.message.as_str());
        },
    }
    r
}

// ── should-stop ──────────────────────────────────────────────────────────────

/// Whether the loop stops after a should-stop callback: the `bool` it
/// returned; `true` when it returned anything else, raised, or its worker
/// failed (the loop stops when it cannot tell).
pub open spec fn spec_should_stop(o: CallbackOutcome) -> bool {
    match o {
        CallbackOutcome::Returned(PyValue::Bool(b)) => b,
        _ => true,
    }
}

/// Decides whether the loop stops after a should-stop callback.
pub fn should_stop_from_outcome(o: &CallbackOutcome) -> (r: bool)
    ensures
        r == spec_should_stop(*o),
{
    match o {
        CallbackOutcome::Returned(PyValue::Bool(b)) => *b,
        _ => true,
    }
}

// ── provider error ───────────────────────────────────────────────────────────

/// What the loop does with a provider error.
#[derive(Debug, Clone, Copy, PartialEq, Eq)]
pub enum ErrorDirective {
    /// Send the same request again.
    Retry,
    /// Let the error reach the caller.
    Surface,
}

/// The directive a provider-error callback gives: `Retry` when it returned
/// the string `"retry"` in any ASCII case, `Surface` otherwise (`"surface"`,
/// `None`, anything else, a raised exception, a failed worker).
pub open spec fn spec_provider_error_directive(o: CallbackOutcome) -> ErrorDirective {
    match o {
        CallbackOutcome::Returned(PyValue::Str(s)) => if eq_ignore_ascii_case(s@, "retry"@) {
            ErrorDirective::Retry
        } else {
            ErrorDirective::Surface
        },
        _ => ErrorDirective::Surface,
    }
}

/// Reads the directive a provider-error callback gave.
pub fn provider_error_directive(o: &CallbackOutcome) -> (r: ErrorDirective)
    ensures
        r == spec_provider_error_directive(*o),
{
    match o {
        CallbackOutcome::Returned(PyValue::Str(s)) => {
            let lower = lower_chars(s.as_str());
            proof {
                reveal_strlit("retry");
                assert(ascii_lower("retry"@) =~= "retry"@);
            }
            if chars_eq_str(&lower, "retry") {
                ErrorDirective::Retry
            } else {
                ErrorDirective::Surface
            }
        },
        _ => ErrorDirective::Surface,
    }
}

// ── before / after tool call, before compaction ─────────────────────────────

/// The decision taken after a before-tool-call callback: the one it
/// returned, or a `hook_error` denial when it returned something unreadable,
/// raised, or its worker failed (tool calls are refused when the hook cannot
/// decide).
pub open spec fn spec_before_tool_call_from(o: CallbackOutcome) -> BeforeToolCallView {
    match o {
        CallbackOutcome::Returned(v) => match spec_before_tool_call_decision(v) {
            Ok(d) => d,
            Err(_) => BeforeToolCallView::Deny {
                code: "hook_error"@,
                message: hook_failure_denial_message(HookFailure::CallbackError),
                details: PyValue::NoneValue,
            },
        },
        CallbackOutcome::Raised(_) => BeforeToolCallView::Deny {
            code: "hook_error"@,
            message: hook_failure_denial_message(HookFailure::CallbackError),
            details: PyValue::NoneValue,
        },
        CallbackOutcome::JoinFailed(_) => BeforeToolCallView::Deny {
            code: "hook_error"@,
            message: hook_failure_denial_message(HookFailure::JoinError),
            details: PyValue::NoneValue,
        },
    }
}

/// Takes the decision that follows a before-tool-call callback.
pub fn before_tool_call_from_outcome(o: CallbackOutcome) -> (d: BeforeToolCallDecision)
    ensures
        d@ == spec_before_tool_call_from(o),
{
    match o {
        CallbackOutcome::Returned(v) => match parse_before_tool_call_decision(v) {
            Ok(d) => d,
            Err(_) => before_tool_call_on_failure(HookFailure::CallbackError),
        },
        CallbackOutcome::Raised(_) => before_tool_call_on_failure(HookFailure::CallbackError),
        CallbackOutcome::JoinFailed(_) => before_tool_call_on_failure(HookFailure::JoinError),
    }
}

/// The decision taken after an after-tool-call callback: the one it
/// returned, or `Passthrough` (the tool's own result stands) on any failure.
pub open spec fn spec_after_tool_call_from(o: CallbackOutcome) -> AfterToolCallDecision {
    match o {
        CallbackOutcome::Returned(v) => match spec_after_tool_call_decision(v) {
            Ok(d) => d,
            Err(_) => AfterToolCallDecision::Passthrough,
        },
        _ => AfterToolCallDecision::Passthrough,
    }
}

/// Takes the decision that follows an after-tool-call callback.
pub fn after_tool_call_from_outcome(o: CallbackOutcome) -> (d: AfterToolCallDecision)
    ensures
        d == spec_after_tool_call_from(o),
{
    match o {
        CallbackOutcome::Returned(v) => match parse_after_tool_call_decision(v) {
            Ok(d) => d,
            Err(_) => AfterToolCallDecision::Passthrough,
        },
        _ => AfterToolCallDecision::Passthrough,
    }
}

/// The decision taken after a before-compaction callback: the one it
/// returned, or `Proceed` (compaction goes ahead as planned) on any failure.
pub open spec fn spec_before_compact_from(
    o: CallbackOutcome,
    estimated_tokens: usize,
    summary_check: SummaryCheck,
    entry_problem: Option<String>,
) -> BeforeCompactView {
    match o {
        CallbackOutcome::Returned(v) => match spec_before_compact_decision(
            v,
            estimated_tokens,
            summary_check,
            entry_problem,
        ) {
            Ok(d) => d,
            Err(_) => BeforeCompactView::Proceed,
        },
        _ => BeforeCompactView::Proceed,
    }
}

/// Takes the decision that follows a before-compaction callback, given what
/// the runtime made of a returned override's summary and first kept entry.
pub fn before_compact_from_outcome(
    o: CallbackOutcome,
    estimated_tokens: usize,
    summary_check: SummaryCheck,
    entry_problem: Option<String>,
) -> (d: BeforeCompactDecision)
    ensures
        d@ == spec_before_compact_from(o, estimated_tokens, summary_check, entry_problem),
{
    match o {
        CallbackOutcome::Returned(v) => match parse_before_compact_decision(
            v,
            estimated_tokens,
            summary_check,
            entry_problem,
        ) {
            Ok(d) => d,
            Err(_) => BeforeCompactDecision::Proceed,
        },
        _ => BeforeCompactDecision::Proceed,
    }
}

// ── hooks whose failure fails the run ───────────────────────────────────────

/// The message of the run error a failed hook raises: what the callback
/// raised, the reason its value could not be read, or `hook join failed: `
/// and the worker's failure.
pub open spec fn join_failure_text(t: Seq<char>) -> Seq<char> {
    "hook join failed: "@ + t
}

/// The run error for a callback that raised or whose worker failed.
fn failure_text(o: &CallbackOutcome) -> (r: String)
    requires
        !(o is Returned),
    ensures
        match *o {
            CallbackOutcome::Raised(t) => r@ == t@,
            CallbackOutcome::JoinFailed(t) => r@ == join_failure_text(t@),
            CallbackOutcome::Returned(_) => false,
        },
{
    match o {
        CallbackOutcome::Raised(t) => t.clone(),
        CallbackOutcome::JoinFailed(t) => concat2("hook join failed: ", t.as_str()),
        CallbackOutcome::Returned(_) => string_from(""),
    }
}

/// What a before-run callback asks for: messages to add to the run (the raw
/// value, read as messages by the runtime) and a replacement system prompt.
#[derive(Debug, PartialEq, Eq)]
pub struct BeforeRunRequest {
    pub additional_messages: Option<PyValue>,
    pub system_prompt: Option<String>,
}

/// The text of an optional value when it is a `str`; anything else is read as
/// no value.
pub open spec fn opt_str_text(o: Option<PyValue>) -> Option<Seq<char>> {
    match o {
        Some(PyValue::Str(s)) => Some(s@),
        _ => None,
    }
}

/// What a before-run callback's run gives: `None` asks for nothing; a dict
/// gives its `additional_messages` and, when it is a `str`, its
/// `system_prompt`; any other value, an exception or a failed worker fails the
/// run with the error's text.
pub open spec fn spec_before_run_from(o: CallbackOutcome) -> Result<
    (Option<PyValue>, Option<Seq<char>>),
    Seq<char>,
> {
    match o {
        CallbackOutcome::Returned(PyValue::NoneValue) => Ok((None, None)),
        CallbackOutcome::Returned(PyValue::Dict(e)) => Ok(
            (
                dict_lookup(e@, "additional_messages"@),
                opt_str_text(dict_lookup(e@, "system_prompt"@)),
            ),
        ),
        CallbackOutcome::Returned(v) => Err(error_text(cast_error(v, "dict"@))),
        CallbackOutcome::Raised(t) => Err(t@),
        CallbackOutcome::JoinFailed(t) => Err(join_failure_text(t@)),
    }
}

/// The mathematical form of a before-run result.
pub open spec fn before_run_view(r: Result<BeforeRunRequest, String>) -> Result<
    (Option<PyValue>, Option<Seq<char>>),
    Seq<char>,
> {
    match r {
        Ok(q) => Ok((q.additional_messages, opt_view(q.system_prompt))),
        Err(t) => Err(t@),
    }
}

/// A copy of the text of an optional value when it is a `str`.
fn opt_str_copy(o: Option<&PyValue>) -> (r: Option<String>)
    ensures
        opt_view(r) == opt_str_text(
            match o {
                Some(v) => Some(*v),
                None => None,
            },
        ),
{
    match o {
        Some(PyValue::Str(s)) => Some(s.clone()),
        _ => None,
    }
}

/// Reads what a before-run callback's run gave.
pub fn before_run_from_outcome(o: CallbackOutcome) -> (r: Result<BeforeRunRequest, String>)
    ensures
        before_run_view(r) == spec_before_run_from(o),
{
    match o {
        CallbackOutcome::Returned(PyValue::NoneValue) => Ok(
            BeforeRunRequest { additional_messages: None, system_prompt: None },
        ),
        CallbackOutcome::Returned(PyValue::Dict(e)) => {
            let system_prompt = opt_str_copy(dict_get(&e, "system_prompt"));
            let additional_messages = dict_take(e, "additional_messages");
            Ok(BeforeRunRequest { additional_messages, system_prompt })
        },
        CallbackOutcome::Returned(v) => Err(render_error(&make_cast_error(&v, "dict"))),
        other => Err(failure_text(&other)),
    }
}

/// The context a transform-context callback gives back: the system prompt
/// and the raw `messages` value, read as messages by the runtime.
#[derive(Debug, PartialEq, Eq)]
pub struct TransformedContext {
    pub system_prompt: Option<String>,
    pub messages: Option<PyValue>,
}

/// What a transform-context callback's run gives: a dict's `system_prompt`
/// (when it is a `str`) and `messages`; any other value, an exception or a
/// failed worker fails the run with the error's text.
pub open spec fn spec_transform_from(o: CallbackOutcome) -> Result<
    (Option<Seq<char>>, Option<PyValue>),
    Seq<char>,
> {
    match o {
        CallbackOutcome::Returned(PyValue::Dict(e)) => Ok(
            (
                opt_str_text(dict_lookup(e@, "system_prompt"@)),
                dict_lookup(e@, "messages"@),
            ),
        ),
        CallbackOutcome::Returned(v) => Err(error_text(cast_error(v, "dict"@))),
        CallbackOutcome::Raised(t) => Err(t@),
        CallbackOutcome::JoinFailed(t) => Err(join_failure_text(t@)),
    }
}

/// The mathematical form of a transform-context result.
pub open spec fn transform_view(r: Result<TransformedContext, String>) -> Result<
    (Option<Seq<char>>, Option<PyValue>),
    Seq<char>,
> {
    match r {
        Ok(c) => Ok((opt_view(c.system_prompt), c.messages)),
        Err(t) => Err(t@),
    }
}

/// Reads what a transform-context callback's run gave.
pub fn transform_from_outcome(o: CallbackOutcome) -> (r: Result<TransformedContext, String>)
    ensures
        transform_view(r) == spec_transform_from(o),
{
    match o {
        CallbackOutcome::Returned(PyValue::Dict(e)) => {
            let system_prompt = opt_str_copy(dict_get(&e, "system_prompt"));
            let messages = dict_take(e, "messages");
            Ok(TransformedContext { system_prompt, messages })
        },
        CallbackOutcome::Returned(v) => Err(render_error(&make_cast_error(&v, "dict"))),
        other => Err(failure_text(&other)),
    }
}

// ── prepare next turn ────────────────────────────────────────────────────────

/// How the next turn's temperature changes.
#[derive(Debug, PartialEq, Eq)]
pub enum TemperatureChange {
    /// The key is absent: the current temperature stays.
    Keep,
    /// `None` was given: the temperature is cleared.
    Clear,
    /// A number was given (a `float`, an `int` or a `bool`); the runtime
    /// reads it as a 32-bit float.
    SetTo(PyValue),
}

/// What a prepare-next-turn callback changes for the next turn. `None` in a
/// field leaves that setting as it is; the runtime takes `active_tools` as a
/// set of names.
#[derive(Debug, PartialEq, Eq)]
pub struct NextTurnPlan {
    pub model: Option<String>,
    pub thinking_level: Option<ThinkingLevel>,
    pub temperature: TemperatureChange,
    pub active_tools: Option<Vec<String>>,
}

/// The mathematical form of a [`NextTurnPlan`].
pub struct NextTurnView {
    pub model: Option<Seq<char>>,
    pub thinking_level: Option<ThinkingLevel>,
    pub temperature: TemperatureChange,
    pub active_tools: Option<Seq<Seq<char>>>,
}

/// Whether Python reads `v` as a number (`float(v)` succeeds for it): a
/// `float`, a `bool`, or an `int` whose conversion does not overflow.
pub open spec fn is_number(v: PyValue) -> bool {
    v is Float || v is Int || v is Bool || (v matches PyValue::BigInt { float_overflows, .. }
        && !float_overflows)
}

/// The names a list or tuple of `str` holds; `None` for anything else.
pub open spec fn str_list_of(v: PyValue) -> Option<Seq<Seq<char>>> {
    match v {
        PyValue::List(items) => if all_strs(items@) {
            Some(strs_text(items@))
        } else {
            None
        },
        PyValue::Tuple(items) => if all_strs(items@) {
            Some(strs_text(items@))
        } else {
            None
        },
        _ => None,
    }
}

/// The message of the error for a temperature that is not a number.
pub open spec fn temperature_type_message(v: PyValue) -> Seq<char> {
    "temperature must be a float, got "@ + py_type_of(v)
}

/// The plan a prepare-next-turn callback's dict gives: `model` when a `str`,
/// `thinking_level` when a `str` naming a level, the temperature change, and
/// `active_tools` when a list or tuple of `str`. A temperature that is neither
/// `None` nor a number is a `TypeError`.
pub open spec fn spec_next_turn_plan(e: Seq<(String, PyValue)>) -> Result<NextTurnView, ErrorView> {
    let temperature = match dict_lookup(e, "temperature"@) {
        None => Ok(TemperatureChange::Keep),
        Some(PyValue::NoneValue) => Ok(TemperatureChange::Clear),
        Some(t) => if is_number(t) {
            Ok(TemperatureChange::SetTo(t))
        } else {
            Err(err_view(PyErrorKind::TypeError, temperature_type_message(t)))
        },
    };
    match temperature {
        Err(err) => Err(err),
        Ok(temperature) => Ok(
            NextTurnView {
                model: opt_str_text(dict_lookup(e, "model"@)),
                thinking_level: match dict_lookup(e, "thinking_level"@) {
                    Some(PyValue::Str(s)) => named_level(ascii_lower(s@), true),
                    _ => None,
                },
                temperature,
                active_tools: match dict_lookup(e, "active_tools"@) {
                    Some(v) => str_list_of(v),
                    None => None,
                },
            },
        ),
    }
}

/// What a prepare-next-turn callback's run gives: `None` changes nothing; a
/// dict gives [`spec_next_turn_plan`]; any other value, an error in the dict,
/// an exception or a failed worker fails the run with the error's text.
pub open spec fn spec_next_turn_from(o: CallbackOutcome) -> Result<NextTurnView, Seq<char>> {
    match o {
        CallbackOutcome::Returned(PyValue::NoneValue) => Ok(
            NextTurnView {
                model: None,
                thinking_level: None,
                temperature: TemperatureChange::Keep,
                active_tools: None,
            },
        ),
        CallbackOutcome::Returned(PyValue::Dict(e)) => match spec_next_turn_plan(e@) {
            Ok(p) => Ok(p),
            Err(err) => Err(error_text(err)),
        },
        CallbackOutcome::Returned(v) => Err(error_text(cast_error(v, "dict"@))),
        CallbackOutcome::Raised(t) => Err(t@),
        CallbackOutcome::JoinFailed(t) => Err(join_failure_text(t@)),
    }
}

/// The mathematical form of a next-turn plan.
pub open spec fn plan_view(p: NextTurnPlan) -> NextTurnView {
    NextTurnView {
        model: opt_view(p.model),
        thinking_level: p.thinking_level,
        temperature: p.temperature,
        active_tools: match p.active_tools {
            Some(v) => Some(strings_view(v@)),
            None => None,
        },
    }
}

/// The mathematical form of a next-turn result.
pub open spec fn next_turn_view(r: Result<NextTurnPlan, String>) -> Result<NextTurnView, Seq<char>> {
    match r {
        Ok(p) => Ok(plan_view(p)),
        Err(t) => Err(t@),
    }
}

/// The texts of a sequence of values, when all of them are `str`.
fn strs_copy(items: &Vec<PyValue>) -> (r: Option<Vec<String>>)
    ensures
        match r {
            Some(names) => all_strs(items@) && strings_view(names@) == strs_text(items@),
            None => !all_strs(items@),
        },
{
    let mut names: Vec<String> = Vec::new();
    let mut i: usize = 0;
    while i < items.len()
        invariant
            i <= items.len(),
            all_strs(items@.take(i as int)),
            strings_view(names@) == strs_text(items@.take(i as int)),
        decreases items.len() - i,
    {
        match &items[i] {
            PyValue::Str(s) => {
                let ghost prev = names@;
                let c = s.clone();
                names.push(c);
                assert(names@ == prev.push(c));
                assert(items@.take(i + 1) =~= items@.take(i as int).push(items@[i as int]));
                assert(strings_view(names@) =~= strings_view(prev).push(c@));
                assert(strs_text(items@.take(i + 1)) =~= strs_text(items@.take(i as int)).push(s@));
            },
            _ => {
                assert(!((items@[i as int]) is Str));
                return None;
            },
        }
        i += 1;
    }
    assert(items@.take(items.len() as int) =~= items@);
    Some(names)
}

/// The names a list or tuple of `str` holds.
fn str_list_copy(v: &PyValue) -> (r: Option<Vec<String>>)
    ensures
        match r {
            Some(names) => str_list_of(*v) == Some(strings_view(names@)),
            None => str_list_of(*v) is None,
        },
{
    match v {
        PyValue::List(items) => strs_copy(items),
        PyValue::Tuple(items) => strs_copy(items),
        _ => None,
    }
}

/// The temperature change the `temperature` entry asks for.
fn temperature_change(t: Option<&PyValue>) -> (r: Result<TemperatureChange, SdkError>)
    ensures
        match t {
            None => r == Ok::<TemperatureChange, SdkError>(TemperatureChange::Keep),
            Some(PyValue::NoneValue) => r == Ok::<TemperatureChange, SdkError>(TemperatureChange::Clear),
            Some(v) => if is_number(*v) {
                r == Ok::<TemperatureChange, SdkError>(TemperatureChange::SetTo(*v))
            } else {
                r matches Err(err) && err@ == err_view(PyErrorKind::TypeError, temperature_type_message(*v))
            },
        },
{
    match t {
        None => Ok(TemperatureChange::Keep),
        Some(PyValue::NoneValue) => Ok(TemperatureChange::Clear),
        Some(PyValue::Float(bits)) => Ok(TemperatureChange::SetTo(PyValue::Float(*bits))),
        Some(PyValue::Int(n)) => Ok(TemperatureChange::SetTo(PyValue::Int(*n))),
        Some(PyValue::BigInt { negative, float_overflows: false }) => Ok(
            TemperatureChange::SetTo(PyValue::BigInt { negative: *negative, float_overflows: false }),
        ),
        Some(PyValue::Bool(b)) => Ok(TemperatureChange::SetTo(PyValue::Bool(*b))),
        Some(v) => {
            let tn = py_type_name(v);
            Err(SdkError::type_error(concat2("temperature must be a float, got ", tn.as_str())))
        },
    }
}

/// Reads what a prepare-next-turn callback's run gave.
pub fn next_turn_from_outcome(o: CallbackOutcome) -> (r: Result<NextTurnPlan, String>)
    ensures
        next_turn_view(r) == spec_next_turn_from(o),
{
    match o {
        CallbackOutcome::Returned(PyValue::NoneValue) => Ok(
            NextTurnPlan {
                model: None,
                thinking_level: None,
                temperature: TemperatureChange::Keep,
                active_tools: None,
            },
        ),
        CallbackOutcome::Returned(PyValue::Dict(e)) => {
            let model = opt_str_copy(dict_get(&e, "model"));
            let thinking_level = match dict_get(&e, "thinking_level") {
                Some(PyValue::Str(s)) => parse_hook_thinking_level(s.as_str()),
                _ => None,
            };
            let temperature = match temperature_change(dict_get(&e, "temperature")) {
                Ok(t) => t,
                Err(err) => return Err(render_error(&err)),
            };
            let active_tools = match dict_get(&e, "active_tools") {
                Some(v) => str_list_copy(v),
                None => None,
            };
            Ok(NextTurnPlan { model, thinking_level, temperature, active_tools })
        },
        CallbackOutcome::Returned(v) => Err(render_error(&make_cast_error(&v, "dict"))),
        other => Err(failure_text(&other)),
    }
}

// ── final-answer validation ─────────────────────────────────────────────────

/// Why a final answer was refused: a code and a message for the model.
#[derive(Debug, PartialEq, Eq)]
pub struct Rejection {
    pub code: String,
    pub message: String,
}

/// A rejection with code `validator_error`.
pub open spec fn validator_error(message: Seq<char>) -> Result<(), (Seq<char>, Seq<char>)> {
    Err(("validator_error"@, message))
}

/// The `str` stored under `key` in a validator's dict, or the rejection that
/// its absence or its type gives.
pub open spec fn validator_field(e: Seq<(String, PyValue)>, key: Seq<char>) -> Result<
    Seq<char>,
    Seq<char>,
> {
    match dict_lookup(e, key) {
        None => Err("validator dict must have '"@ + key + "' key"@),
        Some(v) => match spec_extract_str(v) {
            Ok(t) => Ok(t),
            Err(err) => Err(error_text(err)),
        },
    }
}

/// The verdict on a final answer after a validator callback: `None` accepts
/// it; a `str` rejects it with code `rejected` and that message; a dict
/// rejects it with its `code` and `message`; anything else, an exception or a
/// failed worker rejects it with code `validator_error` (the answer is refused
/// when the validator cannot decide).
pub open spec fn spec_validator_verdict(o: CallbackOutcome) -> Result<(), (Seq<char>, Seq<char>)> {
    match o {
        CallbackOutcome::Returned(PyValue::NoneValue) => Ok(()),
        CallbackOutcome::Returned(PyValue::Str(s)) => Err(("rejected"@, s@)),
        CallbackOutcome::Returned(PyValue::Dict(e)) => match validator_field(e@, "code"@) {
            Err(m) => validator_error(m),
            Ok(code) => match validator_field(e@, "message"@) {
                Err(m) => validator_error(m),
                Ok(message) => Err((code, message)),
            },
        },
        CallbackOutcome::Returned(v) => validator_error(cast_error(v, "dict"@).message),
        CallbackOutcome::Raised(t) => validator_error(t@),
        CallbackOutcome::JoinFailed(t) => validator_error(t@),
    }
}

/// The mathematical form of a verdict.
pub open spec fn verdict_view(r: Result<(), Rejection>) -> Result<(), (Seq<char>, Seq<char>)> {
    match r {
        Ok(()) => Ok(()),
        Err(j) => Err((j.code@, j.message@)),
    }
}

fn reject(code: &str, message: String) -> (r: Result<(), Rejection>)
    ensures
        verdict_view(r) == Err::<(), (Seq<char>, Seq<char>)>((code@, message@)),
{
    Err(Rejection { code: string_from(code), message })
}

fn read_validator_field(e: &Vec<(String, PyValue)>, key: &str) -> (r: Result<String, String>)
    ensures
        match r {
            Ok(t) => validator_field(e@, key@) == Ok::<Seq<char>, Seq<char>>(t@),
            Err(m) => validator_field(e@, key@) == Err::<Seq<char>, Seq<char>>(m@),
        },
{
    match dict_get(e, key) {
        None => {
            let mut m = string_from("validator dict must have '");
            m.append(key);
            m.append("' key");
            Err(m)
        },
        Some(v) => match extract_str(v) {
            Ok(t) => Ok(t),
            Err(err) => Err(render_error(&err)),
        },
    }
}

/// Gives the verdict on a final answer after a validator callback.
pub fn validator_verdict(o: CallbackOutcome) -> (r: Result<(), Rejection>)
    ensures
        verdict_view(r) == spec_validator_verdict(o),
{
    match o {
        CallbackOutcome::Returned(PyValue::NoneValue) => Ok(()),
        CallbackOutcome::Returned(PyValue::Str(s)) => reject("rejected", s),
        CallbackOutcome::Returned(PyValue::Dict(e)) => {
            let code = match read_validator_field(&e, "code") {
                Ok(c) => c,
                Err(m) => return reject("validator_error", m),
            };
            match read_validator_field(&e, "message") {
                Ok(message) => Err(Rejection { code, message }),
                Err(m) => reject("validator_error", m),
            }
        },
        CallbackOutcome::Returned(v) => reject("validator_error", make_cast_error(&v, "dict").message),
        CallbackOutcome::Raised(t) => reject("validator_error", t),
        CallbackOutcome::JoinFailed(t) => reject("validator_error", t),
    }
}

// ── what the hooks promise when their callback fails ────────────────────────

/// A before-tool-call hook fails closed: when its callback raises, its worker
/// fails, or it returns a value that is not a decision, the tool call is
/// denied with code `hook_error`.
pub proof fn law_before_tool_call_fails_closed(o: CallbackOutcome)
    requires
        match o {
            CallbackOutcome::Returned(v) => spec_before_tool_call_decision(v) is Err,
            _ => true,
        },
    ensures
        spec_before_tool_call_from(o) matches BeforeToolCallView::Deny { code, .. } && code
            == "hook_error"@,
{
}

/// A should-stop hook fails safe: unless its callback returned a `bool`, the
/// loop stops.
pub proof fn law_should_stop_fails_safe(o: CallbackOutcome)
    requires
        !(o matches CallbackOutcome::Returned(PyValue::Bool(_))),
    ensures
        spec_should_stop(o),
{
}

/// An after-tool-call hook fails open: unless its callback returned a
/// readable decision, the tool's own result stands.
pub proof fn law_after_tool_call_fails_open(o: CallbackOutcome)
    requires
        match o {
            CallbackOutcome::Returned(v) => spec_after_tool_call_decision(v) is Err,
            _ => true,
        },
    ensures
        spec_after_tool_call_from(o) == AfterToolCallDecision::Passthrough,
{
}

/// A before-compaction hook fails open: unless its callback returned a
/// readable decision, compaction proceeds.
pub proof fn law_before_compact_fails_open(
    o: CallbackOutcome,
    estimated_tokens: usize,
    summary_check: SummaryCheck,
    entry_problem: Option<String>,
)
    requires
        match o {
            CallbackOutcome::Returned(v) => spec_before_compact_decision(
                v,
                estimated_tokens,
                summary_check,
                entry_problem,
            ) is Err,
            _ => true,
        },
    ensures
        spec_before_compact_from(o, estimated_tokens, summary_check, entry_problem)
            == BeforeCompactView::Proceed,
{
}

/// A final answer is accepted exactly when the validator returned `None`;
/// whatever else happens, including a failing validator, rejects it.
pub proof fn law_validator_accepts_only_none(o: CallbackOutcome)
    ensures
        spec_validator_verdict(o) is Ok <==> o == CallbackOutcome::Returned(PyValue::NoneValue),
{
}

/// A provider error is retried only when the callback returned `"retry"` in
/// some ASCII case; anything else, a failure included, lets it surface.
pub proof fn law_provider_error_retries_only_on_request(o: CallbackOutcome)
    ensures
        spec_provider_error_directive(o) == ErrorDirective::Retry ==> (o matches CallbackOutcome::Returned(
            PyValue::Str(s),
        ) && eq_ignore_ascii_case(s@, "retry"@)),
{
}

} // verus!
