//! The dicts hook callbacks receive: each hook's context, rendered with the
//! keys, order and `None` placeholders Python code reads.
//!
//! Messages, arguments and other JSON-shaped parts arrive already rendered as
//! values; the functions here put them in place.

use vstd::prelude::*;

use crate::harness::{opt_sd, sd, spec_stop_reason_str, stop_reason_to_str, StopReason};
use crate::value::{
    data_field, lemma_entries_field_at, entries_data, push_entry, push_value, str_list_value, str_value, strings_data, usize_value,
    values_data, PyData, PyValue,
};

verus! {

/// An `int` in the mathematical form of values.
pub open spec fn int_d(n: int) -> PyData {
    PyData::Int(n)
}

/// An optional integer in the mathematical form of values.
pub open spec fn opt_int_d(o: Option<u64>) -> PyData {
    match o {
        Some(n) => PyData::Int(n as int),
        None => PyData::NoneValue,
    }
}

/// An optional value in the mathematical form of values.
pub open spec fn opt_d(o: Option<PyValue>) -> PyData {
    match o {
        Some(v) => v@,
        None => PyData::NoneValue,
    }
}

/// The run fields every hook context ends with or holds.
pub open spec fn run_fields(run_id: String, started_at: String) -> Seq<(Seq<char>, PyData)> {
    seq![("run_id"@, sd(run_id@)), ("started_at"@, sd(started_at@))]
}

/// An `int` value holding `n`.
pub fn int_value(n: u64) -> (r: PyValue)
    ensures
        r@ == int_d(n as int),
{
    PyValue::Int(n as i128)
}

/// An `int` value holding `n`, or `None`.
pub fn opt_int_value(o: Option<u64>) -> (r: PyValue)
    ensures
        r@ == opt_int_d(o),
{
    match o {
        Some(n) => PyValue::Int(n as i128),
        None => PyValue::NoneValue,
    }
}

/// A `str` value holding `s`, or `None`.
pub fn opt_str(o: Option<String>) -> (r: PyValue)
    ensures
        r@ == opt_sd(o),
{
    match o {
        Some(s) => PyValue::Str(s),
        None => PyValue::NoneValue,
    }
}

/// The given value, or `None`.
pub fn opt_value(o: Option<PyValue>) -> (r: PyValue)
    ensures
        r@ == opt_d(o),
{
    match o {
        Some(v) => v,
        None => PyValue::NoneValue,
    }
}

/// The entries of an empty dict.
pub fn empty_entries() -> (e: Vec<(String, PyValue)>)
    ensures
        entries_data(e@) == Seq::<(Seq<char>, PyData)>::empty(),
{
    let e: Vec<(String, PyValue)> = Vec::new();
    assert(entries_data(e@) =~= Seq::<(Seq<char>, PyData)>::empty());
    e
}

// ── context of the agent and of a tool's result ─────────────────────────────

/// The dict of an agent context: its system prompt and messages.
pub open spec fn spec_agent_context_dict(system_prompt: Option<String>, messages: PyData) -> PyData {
    PyData::Dict(seq![("system_prompt"@, opt_sd(system_prompt)), ("messages"@, messages)])
}

/// Renders an agent context (its system prompt and its rendered messages).
pub fn agent_context_to_dict(system_prompt: Option<String>, messages: PyValue) -> (r: PyValue)
    ensures
        r@ == spec_agent_context_dict(system_prompt, messages@),
{
    let ghost m = messages@;
    let mut e = empty_entries();
    push_entry(&mut e, "system_prompt", opt_str(system_prompt));
    push_entry(&mut e, "messages", messages);
    assert(entries_data(e@) =~= seq![("system_prompt"@, opt_sd(system_prompt)), ("messages"@, m)]);
    PyValue::Dict(e)
}

/// A tool's result: its content blocks (rendered), details and whether it
/// ends the run.
#[derive(Debug, PartialEq, Eq)]
pub struct ToolOutput {
    pub content: Vec<PyValue>,
    pub details: PyValue,
    pub terminate: bool,
}

/// The dict of a tool's result.
pub open spec fn spec_tool_result_dict(t: ToolOutput) -> PyData {
    PyData::Dict(
        seq![
            ("content"@, PyData::List(values_data(t.content@))),
            ("details"@, t.details@),
            ("terminate"@, PyData::Bool(t.terminate)),
        ],
    )
}

/// Renders a tool's result as `{"content": [...], "details": ..., "terminate": ...}`.
pub fn tool_result_to_dict(t: ToolOutput) -> (r: PyValue)
    ensures
        r@ == spec_tool_result_dict(t),
{
    let ghost g = t;
    let ToolOutput { content, details, terminate } = t;
    let mut e = empty_entries();
    push_entry(&mut e, "content", PyValue::List(content));
    push_entry(&mut e, "details", details);
    push_entry(&mut e, "terminate", PyValue::Bool(terminate));
    assert(entries_data(e@) =~= seq![
        ("content"@, PyData::List(values_data(g.content@))),
        ("details"@, g.details@),
        ("terminate"@, PyData::Bool(g.terminate)),
    ]);
    PyValue::Dict(e)
}

/// The value standing for how a tool call ended: its result's dict, or the
/// error's text.
pub open spec fn spec_tool_run_value(r: Result<ToolOutput, String>) -> PyData {
    match r {
        Ok(t) => spec_tool_result_dict(t),
        Err(s) => sd(s@),
    }
}

fn tool_run_value(r: Result<ToolOutput, String>) -> (v: PyValue)
    ensures
        v@ == spec_tool_run_value(r),
{
    match r {
        Ok(t) => tool_result_to_dict(t),
        Err(s) => PyValue::Str(s),
    }
}

// ── contexts of the notification hooks ──────────────────────────────────────

/// The context of a before-turn hook.
pub open spec fn spec_before_turn_ctx(
    turn_index: usize,
    model: String,
    system_prompt: Option<String>,
    run_id: String,
    started_at: String,
) -> PyData {
    PyData::Dict(
        seq![
            ("turn_index"@, int_d(turn_index as int)),
            ("model"@, sd(model@)),
            ("system_prompt"@, opt_sd(system_prompt)),
        ] + run_fields(run_id, started_at),
    )
}

/// Renders the context of a before-turn hook.
pub fn before_turn_ctx(
    turn_index: usize,
    model: String,
    system_prompt: Option<String>,
    run_id: String,
    started_at: String,
) -> (r: PyValue)
    ensures
        r@ == spec_before_turn_ctx(turn_index, model, system_prompt, run_id, started_at),
{
    let ghost (m, sp, id, at) = (model, system_prompt, run_id, started_at);
    let mut e = empty_entries();
    push_entry(&mut e, "turn_index", usize_value(turn_index));
    push_entry(&mut e, "model", PyValue::Str(model));
    push_entry(&mut e, "system_prompt", opt_str(system_prompt));
    push_entry(&mut e, "run_id", PyValue::Str(run_id));
    push_entry(&mut e, "started_at", PyValue::Str(started_at));
    assert(entries_data(e@) =~= seq![
        ("turn_index"@, int_d(turn_index as int)),
        ("model"@, sd(m@)),
        ("system_prompt"@, opt_sd(sp)),
    ] + run_fields(id, at));
    PyValue::Dict(e)
}

/// The context of an after-turn hook.
pub open spec fn spec_after_turn_ctx(
    turn_index: usize,
    new_messages: PyData,
    run_id: String,
    started_at: String,
) -> PyData {
    PyData::Dict(
        seq![("turn_index"@, int_d(turn_index as int)), ("new_messages"@, new_messages)]
            + run_fields(run_id, started_at),
    )
}

/// Renders the context of an after-turn hook.
pub fn after_turn_ctx(
    turn_index: usize,
    new_messages: PyValue,
    run_id: String,
    started_at: String,
) -> (r: PyValue)
    ensures
        r@ == spec_after_turn_ctx(turn_index, new_messages@, run_id, started_at),
{
    let ghost (nm, id, at) = (new_messages@, run_id, started_at);
    let mut e = empty_entries();
    push_entry(&mut e, "turn_index", usize_value(turn_index));
    push_entry(&mut e, "new_messages", new_messages);
    push_entry(&mut e, "run_id", PyValue::Str(run_id));
    push_entry(&mut e, "started_at", PyValue::Str(started_at));
    assert(entries_data(e@) =~= seq![
        ("turn_index"@, int_d(turn_index as int)),
        ("new_messages"@, nm),
    ] + run_fields(id, at));
    PyValue::Dict(e)
}

/// Token counts a provider reported for one response.
#[derive(Debug, Clone, Copy, PartialEq, Eq)]
pub struct TokenUsage {
    pub input_tokens: u64,
    pub output_tokens: u64,
    pub cache_read_tokens: u64,
    pub cache_creation_tokens: u64,
    pub reasoning_tokens: u64,
}

/// The dict of a token usage.
pub open spec fn spec_usage_dict(u: TokenUsage) -> PyData {
    PyData::Dict(
        seq![
            ("input_tokens"@, int_d(u.input_tokens as int)),
            ("output_tokens"@, int_d(u.output_tokens as int)),
            ("cache_read_tokens"@, int_d(u.cache_read_tokens as int)),
            ("cache_creation_tokens"@, int_d(u.cache_creation_tokens as int)),
            ("reasoning_tokens"@, int_d(u.reasoning_tokens as int)),
        ],
    )
}

fn usage_dict(u: TokenUsage) -> (r: PyValue)
    ensures
        r@ == spec_usage_dict(u),
{
    let mut e = empty_entries();
    push_entry(&mut e, "input_tokens", int_value(u.input_tokens));
    push_entry(&mut e, "output_tokens", int_value(u.output_tokens));
    push_entry(&mut e, "cache_read_tokens", int_value(u.cache_read_tokens));
    push_entry(&mut e, "cache_creation_tokens", int_value(u.cache_creation_tokens));
    push_entry(&mut e, "reasoning_tokens", int_value(u.reasoning_tokens));
    assert(entries_data(e@) =~= seq![
        ("input_tokens"@, int_d(u.input_tokens as int)),
        ("output_tokens"@, int_d(u.output_tokens as int)),
        ("cache_read_tokens"@, int_d(u.cache_read_tokens as int)),
        ("cache_creation_tokens"@, int_d(u.cache_creation_tokens as int)),
        ("reasoning_tokens"@, int_d(u.reasoning_tokens as int)),
    ]);
    PyValue::Dict(e)
}

/// A list of `[name, value]` pairs in the mathematical form of values.
pub open spec fn header_pairs_data(h: Seq<(String, String)>) -> Seq<PyData> {
    h.map_values(|p: (String, String)| PyData::List(seq![sd(p.0@), sd(p.1@)]))
}

/// Renders headers as a list of `[name, value]` lists, in their order.
fn header_pairs(h: Vec<(String, String)>) -> (r: PyValue)
    ensures
        r@ == PyData::List(header_pairs_data(h@)),
{
    let ghost orig = h@;
    let mut rest = h;
    let mut items: Vec<PyValue> = Vec::new();
    let mut i: usize = 0;
    let total: usize = rest.len();
    assert(rest@ =~= orig.skip(0));
    assert(values_data(items@) =~= header_pairs_data(orig.take(0)));
    while rest.len() > 0
        invariant
            i + rest@.len() == orig.len(),
            orig.len() == total,
            rest@ == orig.skip(i as int),
            values_data(items@) == header_pairs_data(orig.take(i as int)),
        decreases rest.len(),
    {
        let (k, v) = rest.remove(0);
        let ghost (gk, gv) = (k, v);
        assert(orig[i as int] == (gk, gv));
        let mut pair: Vec<PyValue> = Vec::new();
        push_value(&mut pair, PyValue::Str(k));
        push_value(&mut pair, PyValue::Str(v));
        assert(values_data(pair@) =~= seq![sd(gk@), sd(gv@)]) by {
            assert(values_data(Seq::<PyValue>::empty()) =~= Seq::<PyData>::empty());
        }
        push_value(&mut items, PyValue::List(pair));
        assert(orig.take(i + 1) =~= orig.take(i as int).push(orig[i as int]));
        assert(header_pairs_data(orig.take(i + 1)) =~= header_pairs_data(orig.take(i as int)).push(
            PyData::List(seq![sd(gk@), sd(gv@)]),
        ));
        i += 1;
        assert(rest@ =~= orig.skip(i as int));
    }
    assert(orig.take(i as int) =~= orig);
    PyValue::List(items)
}

/// What a provider reported about one response.
#[derive(Debug, PartialEq, Eq)]
pub struct ResponseInfo {
    pub status_code: Option<u64>,
    pub response_headers: Vec<(String, String)>,
    pub usage: Option<TokenUsage>,
    pub latency_ms: u64,
    pub model: Option<String>,
    pub provider: Option<String>,
}

/// The context of an after-provider-response hook.
pub open spec fn spec_after_response_ctx(
    info: ResponseInfo,
    run_id: String,
    started_at: String,
    turn_index: usize,
) -> PyData {
    PyData::Dict(
        seq![
            ("status_code"@, opt_int_d(info.status_code)),
            ("response_headers"@, PyData::List(header_pairs_data(info.response_headers@))),
            (
                "usage"@,
                match info.usage {
                    Some(u) => spec_usage_dict(u),
                    None => PyData::NoneValue,
                },
            ),
            ("latency_ms"@, int_d(info.latency_ms as int)),
            ("model"@, opt_sd(info.model)),
            ("provider"@, opt_sd(info.provider)),
        ] + run_fields(run_id, started_at) + seq![("turn_index"@, int_d(turn_index as int))],
    )
}

/// Renders the context of an after-provider-response hook.
pub fn after_response_ctx(
    info: ResponseInfo,
    run_id: String,
    started_at: String,
    turn_index: usize,
) -> (r: PyValue)
    ensures
        r@ == spec_after_response_ctx(info, run_id, started_at, turn_index),
{
    let ghost (g, id, at) = (info, run_id, started_at);
    let ResponseInfo { status_code, response_headers, usage, latency_ms, model, provider } = info;
    let mut e = empty_entries();
    push_entry(&mut e, "status_code", opt_int_value(status_code));
    push_entry(&mut e, "response_headers", header_pairs(response_headers));
    let u = match usage {
        Some(u) => usage_dict(u),
        None => PyValue::NoneValue,
    };
    push_entry(&mut e, "usage", u);
    push_entry(&mut e, "latency_ms", int_value(latency_ms));
    push_entry(&mut e, "model", opt_str(model));
    push_entry(&mut e, "provider", opt_str(provider));
    push_entry(&mut e, "run_id", PyValue::Str(run_id));
    push_entry(&mut e, "started_at", PyValue::Str(started_at));
    push_entry(&mut e, "turn_index", usize_value(turn_index));
    assert(entries_data(e@) =~= seq![
        ("status_code"@, opt_int_d(g.status_code)),
        ("response_headers"@, PyData::List(header_pairs_data(g.response_headers@))),
        (
            "usage"@,
            match g.usage {
                Some(u) => spec_usage_dict(u),
                None => PyData::NoneValue,
            },
        ),
        ("latency_ms"@, int_d(g.latency_ms as int)),
        ("model"@, opt_sd(g.model)),
        ("provider"@, opt_sd(g.provider)),
    ] + run_fields(id, at) + seq![("turn_index"@, int_d(turn_index as int))]);
    PyValue::Dict(e)
}

/// The options of one provider request.
#[derive(Debug, PartialEq, Eq)]
pub struct RequestOptions {
    pub timeout_ms: Option<u64>,
    pub max_retries: Option<u64>,
    pub max_retry_delay_ms: Option<u64>,
    pub headers: Vec<(String, String)>,
    pub metadata: PyValue,
    pub cache_config: Option<PyValue>,
}

/// The context of a before-provider-request hook.
pub open spec fn spec_before_request_ctx(
    opts: RequestOptions,
    run_id: String,
    started_at: String,
    turn_index: usize,
) -> PyData {
    PyData::Dict(
        seq![
            ("timeout_ms"@, opt_int_d(opts.timeout_ms)),
            ("max_retries"@, opt_int_d(opts.max_retries)),
            ("max_retry_delay_ms"@, opt_int_d(opts.max_retry_delay_ms)),
            ("headers"@, PyData::List(header_pairs_data(opts.headers@))),
            ("metadata"@, opts.metadata@),
            ("cache_config"@, opt_d(opts.cache_config)),
        ] + run_fields(run_id, started_at) + seq![("turn_index"@, int_d(turn_index as int))],
    )
}

/// Renders the context of a before-provider-request hook.
pub fn before_request_ctx(
    opts: RequestOptions,
    run_id: String,
    started_at: String,
    turn_index: usize,
) -> (r: PyValue)
    ensures
        r@ == spec_before_request_ctx(opts, run_id, started_at, turn_index),
{
    let ghost (g, id, at) = (opts, run_id, started_at);
    let RequestOptions { timeout_ms, max_retries, max_retry_delay_ms, headers, metadata, cache_config } = opts;
    let mut e = empty_entries();
    push_entry(&mut e, "timeout_ms", opt_int_value(timeout_ms));
    push_entry(&mut e, "max_retries", opt_int_value(max_retries));
    push_entry(&mut e, "max_retry_delay_ms", opt_int_value(max_retry_delay_ms));
    push_entry(&mut e, "headers", header_pairs(headers));
    push_entry(&mut e, "metadata", metadata);
    push_entry(&mut e, "cache_config", opt_value(cache_config));
    push_entry(&mut e, "run_id", PyValue::Str(run_id));
    push_entry(&mut e, "started_at", PyValue::Str(started_at));
    push_entry(&mut e, "turn_index", usize_value(turn_index));
    assert(entries_data(e@) =~= seq![
        ("timeout_ms"@, opt_int_d(g.timeout_ms)),
        ("max_retries"@, opt_int_d(g.max_retries)),
        ("max_retry_delay_ms"@, opt_int_d(g.max_retry_delay_ms)),
        ("headers"@, PyData::List(header_pairs_data(g.headers@))),
        ("metadata"@, g.metadata@),
        ("cache_config"@, opt_d(g.cache_config)),
    ] + run_fields(id, at) + seq![("turn_index"@, int_d(turn_index as int))]);
    PyValue::Dict(e)
}

// ── contexts of the hooks that decide ───────────────────────────────────────

/// The context of a before-run hook.
pub open spec fn spec_before_run_ctx(
    prompt_text: String,
    initial_messages: PyData,
    system_prompt: Option<String>,
    run_id: String,
    started_at: String,
) -> PyData {
    PyData::Dict(
        seq![
            ("prompt_text"@, sd(prompt_text@)),
            ("initial_messages"@, initial_messages),
            ("system_prompt"@, opt_sd(system_prompt)),
        ] + run_fields(run_id, started_at),
    )
}

/// Renders the context of a before-run hook.
pub fn before_run_ctx(
    prompt_text: String,
    initial_messages: PyValue,
    system_prompt: Option<String>,
    run_id: String,
    started_at: String,
) -> (r: PyValue)
    ensures
        r@ == spec_before_run_ctx(prompt_text, initial_messages@, system_prompt, run_id, started_at),
{
    let ghost (pt, im, sp, id, at) = (prompt_text, initial_messages@, system_prompt, run_id, started_at);
    let mut e = empty_entries();
    push_entry(&mut e, "prompt_text", PyValue::Str(prompt_text));
    push_entry(&mut e, "initial_messages", initial_messages);
    push_entry(&mut e, "system_prompt", opt_str(system_prompt));
    push_entry(&mut e, "run_id", PyValue::Str(run_id));
    push_entry(&mut e, "started_at", PyValue::Str(started_at));
    assert(entries_data(e@) =~= seq![
        ("prompt_text"@, sd(pt@)),
        ("initial_messages"@, im),
        ("system_prompt"@, opt_sd(sp)),
    ] + run_fields(id, at));
    PyValue::Dict(e)
}

/// A tool call as hooks see it: ids, arguments and the assistant message
/// that made it (rendered).
#[derive(Debug, PartialEq, Eq)]
pub struct ToolCallInfo {
    pub tool_use_id: String,
    pub tool_name: String,
    pub args: PyValue,
    pub turn_index: usize,
    pub assistant_message: PyValue,
}

/// The entries every tool-call context starts with.
pub open spec fn tool_call_fields(c: ToolCallInfo) -> Seq<(Seq<char>, PyData)> {
    seq![
        ("tool_use_id"@, sd(c.tool_use_id@)),
        ("tool_name"@, sd(c.tool_name@)),
        ("args"@, c.args@),
        ("turn_index"@, int_d(c.turn_index as int)),
        ("assistant_message"@, c.assistant_message@),
    ]
}

fn tool_call_entries(c: ToolCallInfo) -> (e: Vec<(String, PyValue)>)
    ensures
        entries_data(e@) == tool_call_fields(c),
{
    let ghost g = c;
    let ToolCallInfo { tool_use_id, tool_name, args, turn_index, assistant_message } = c;
    let mut e = empty_entries();
    push_entry(&mut e, "tool_use_id", PyValue::Str(tool_use_id));
    push_entry(&mut e, "tool_name", PyValue::Str(tool_name));
    push_entry(&mut e, "args", args);
    push_entry(&mut e, "turn_index", usize_value(turn_index));
    push_entry(&mut e, "assistant_message", assistant_message);
    assert(entries_data(e@) =~= tool_call_fields(g));
    e
}

/// The context of a before-tool-call hook.
pub open spec fn spec_before_tool_call_ctx(c: ToolCallInfo, run_id: String, started_at: String) -> PyData {
    PyData::Dict(tool_call_fields(c) + run_fields(run_id, started_at))
}

/// Renders the context of a before-tool-call hook.
pub fn before_tool_call_ctx(c: ToolCallInfo, run_id: String, started_at: String) -> (r: PyValue)
    ensures
        r@ == spec_before_tool_call_ctx(c, run_id, started_at),
{
    let ghost (g, id, at) = (c, run_id, started_at);
    let mut e = tool_call_entries(c);
    push_entry(&mut e, "run_id", PyValue::Str(run_id));
    push_entry(&mut e, "started_at", PyValue::Str(started_at));
    assert(entries_data(e@) =~= tool_call_fields(g) + run_fields(id, at));
    PyValue::Dict(e)
}

/// The context of an after-tool-call hook: the call, whether the tool
/// succeeded, and its result's dict or its error's text.
pub open spec fn spec_after_tool_call_ctx(
    c: ToolCallInfo,
    result: Result<ToolOutput, String>,
    run_id: String,
    started_at: String,
) -> PyData {
    PyData::Dict(
        tool_call_fields(c) + seq![
            ("result_ok"@, PyData::Bool(result is Ok)),
            ("result"@, spec_tool_run_value(result)),
        ] + run_fields(run_id, started_at),
    )
}

/// Renders the context of an after-tool-call hook.
pub fn after_tool_call_ctx(
    c: ToolCallInfo,
    result: Result<ToolOutput, String>,
    run_id: String,
    started_at: String,
) -> (r: PyValue)
    ensures
        r@ == spec_after_tool_call_ctx(c, result, run_id, started_at),
{
    let ghost (g, res, id, at) = (c, result, run_id, started_at);
    let ok = result.is_ok();
    let mut e = tool_call_entries(c);
    push_entry(&mut e, "result_ok", PyValue::Bool(ok));
    push_entry(&mut e, "result", tool_run_value(result));
    push_entry(&mut e, "run_id", PyValue::Str(run_id));
    push_entry(&mut e, "started_at", PyValue::Str(started_at));
    assert(entries_data(e@) =~= tool_call_fields(g) + seq![
        ("result_ok"@, PyData::Bool(res is Ok)),
        ("result"@, spec_tool_run_value(res)),
    ] + run_fields(id, at));
    PyValue::Dict(e)
}

/// The context of a should-stop hook.
pub open spec fn spec_should_stop_ctx(
    turn_index: usize,
    stop_reason: StopReason,
    last_assistant: PyData,
    run_id: String,
    started_at: String,
) -> PyData {
    PyData::Dict(
        seq![
            ("turn_index"@, int_d(turn_index as int)),
            ("stop_reason"@, sd(spec_stop_reason_str(stop_reason))),
            ("last_assistant"@, last_assistant),
        ] + run_fields(run_id, started_at),
    )
}

/// Renders the context of a should-stop hook.
pub fn should_stop_ctx(
    turn_index: usize,
    stop_reason: StopReason,
    last_assistant: PyValue,
    run_id: String,
    started_at: String,
) -> (r: PyValue)
    ensures
        r@ == spec_should_stop_ctx(turn_index, stop_reason, last_assistant@, run_id, started_at),
{
    let ghost (la, id, at) = (last_assistant@, run_id, started_at);
    let mut e = empty_entries();
    push_entry(&mut e, "turn_index", usize_value(turn_index));
    push_entry(&mut e, "stop_reason", str_value(stop_reason_to_str(stop_reason)));
    push_entry(&mut e, "last_assistant", last_assistant);
    push_entry(&mut e, "run_id", PyValue::Str(run_id));
    push_entry(&mut e, "started_at", PyValue::Str(started_at));
    assert(entries_data(e@) =~= seq![
        ("turn_index"@, int_d(turn_index as int)),
        ("stop_reason"@, sd(spec_stop_reason_str(stop_reason))),
        ("last_assistant"@, la),
    ] + run_fields(id, at));
    PyValue::Dict(e)
}

/// What a before-compaction hook is told about the planned compaction.
#[derive(Debug, PartialEq, Eq)]
pub struct CompactionInfo {
    pub estimated_tokens: usize,
    pub messages: PyValue,
    pub entry_ids: Vec<String>,
    pub context_window: u64,
    pub reserve_tokens: u64,
    pub keep_recent_tokens: u64,
}

/// The context of a before-compaction hook.
pub open spec fn spec_before_compact_ctx(c: CompactionInfo) -> PyData {
    PyData::Dict(
        seq![
            ("estimated_tokens"@, int_d(c.estimated_tokens as int)),
            ("messages"@, c.messages@),
            ("entry_ids"@, PyData::List(strings_data(c.entry_ids@))),
            ("context_window"@, int_d(c.context_window as int)),
            ("reserve_tokens"@, int_d(c.reserve_tokens as int)),
            ("keep_recent_tokens"@, int_d(c.keep_recent_tokens as int)),
        ],
    )
}

/// Renders the context of a before-compaction hook.
pub fn before_compact_ctx(c: CompactionInfo) -> (r: PyValue)
    ensures
        r@ == spec_before_compact_ctx(c),
{
    let ghost g = c;
    let CompactionInfo {
        estimated_tokens,
        messages,
        entry_ids,
        context_window,
        reserve_tokens,
        keep_recent_tokens,
    } = c;
    let mut e = empty_entries();
    push_entry(&mut e, "estimated_tokens", usize_value(estimated_tokens));
    push_entry(&mut e, "messages", messages);
    push_entry(&mut e, "entry_ids", str_list_value(&entry_ids));
    push_entry(&mut e, "context_window", int_value(context_window));
    push_entry(&mut e, "reserve_tokens", int_value(reserve_tokens));
    push_entry(&mut e, "keep_recent_tokens", int_value(keep_recent_tokens));
    assert(entries_data(e@) =~= seq![
        ("estimated_tokens"@, int_d(g.estimated_tokens as int)),
        ("messages"@, g.messages@),
        ("entry_ids"@, PyData::List(strings_data(g.entry_ids@))),
        ("context_window"@, int_d(g.context_window as int)),
        ("reserve_tokens"@, int_d(g.reserve_tokens as int)),
        ("keep_recent_tokens"@, int_d(g.keep_recent_tokens as int)),
    ]);
    PyValue::Dict(e)
}

/// The context of a transform-context hook: the agent context's dict with
/// the run fields after it.
pub open spec fn spec_transform_ctx(
    system_prompt: Option<String>,
    messages: PyData,
    run_id: String,
    started_at: String,
) -> PyData {
    PyData::Dict(
        seq![("system_prompt"@, opt_sd(system_prompt)), ("messages"@, messages)] + run_fields(
            run_id,
            started_at,
        ),
    )
}

/// Renders the context of a transform-context hook.
pub fn transform_ctx(
    system_prompt: Option<String>,
    messages: PyValue,
    run_id: String,
    started_at: String,
) -> (r: PyValue)
    ensures
        r@ == spec_transform_ctx(system_prompt, messages@, run_id, started_at),
{
    let ghost (sp, m, id, at) = (system_prompt, messages@, run_id, started_at);
    let mut e = empty_entries();
    push_entry(&mut e, "system_prompt", opt_str(system_prompt));
    push_entry(&mut e, "messages", messages);
    push_entry(&mut e, "run_id", PyValue::Str(run_id));
    push_entry(&mut e, "started_at", PyValue::Str(started_at));
    assert(entries_data(e@) =~= seq![("system_prompt"@, opt_sd(sp)), ("messages"@, m)] + run_fields(id, at));
    PyValue::Dict(e)
}

/// The context of a final-answer validator.
pub open spec fn spec_validator_ctx(
    candidate: PyData,
    turn_index: usize,
    run_id: String,
    started_at: String,
) -> PyData {
    PyData::Dict(
        seq![("candidate"@, candidate), ("turn_index"@, int_d(turn_index as int))] + run_fields(
            run_id,
            started_at,
        ),
    )
}

/// Renders the context of a final-answer validator.
pub fn validator_ctx(candidate: PyValue, turn_index: usize, run_id: String, started_at: String) -> (r:
    PyValue)
    ensures
        r@ == spec_validator_ctx(candidate@, turn_index, run_id, started_at),
{
    let ghost (c, id, at) = (candidate@, run_id, started_at);
    let mut e = empty_entries();
    push_entry(&mut e, "candidate", candidate);
    push_entry(&mut e, "turn_index", usize_value(turn_index));
    push_entry(&mut e, "run_id", PyValue::Str(run_id));
    push_entry(&mut e, "started_at", PyValue::Str(started_at));
    assert(entries_data(e@) =~= seq![("candidate"@, c), ("turn_index"@, int_d(turn_index as int))]
        + run_fields(id, at));
    PyValue::Dict(e)
}

/// What a provider-error hook is told: the run, the turn, the error's text,
/// a snapshot of the context and the messages of the turn so far.
#[derive(Debug, PartialEq, Eq)]
pub struct ProviderErrorInfo {
    pub turn_index: usize,
    pub error: String,
    pub system_prompt: Option<String>,
    pub messages: PyValue,
    pub new_messages: PyValue,
}

/// The context of a provider-error hook.
pub open spec fn spec_provider_error_ctx(run_id: String, started_at: String, p: ProviderErrorInfo) -> PyData {
    PyData::Dict(
        run_fields(run_id, started_at) + seq![
            ("turn_index"@, int_d(p.turn_index as int)),
            ("error"@, sd(p.error@)),
            ("context"@, spec_agent_context_dict(p.system_prompt, p.messages@)),
            ("new_messages"@, p.new_messages@),
        ],
    )
}

/// Renders the context of a provider-error hook.
pub fn provider_error_ctx(run_id: String, started_at: String, p: ProviderErrorInfo) -> (r: PyValue)
    ensures
        r@ == spec_provider_error_ctx(run_id, started_at, p),
{
    let ghost (id, at, g) = (run_id, started_at, p);
    let ProviderErrorInfo { turn_index, error, system_prompt, messages, new_messages } = p;
    let mut e = empty_entries();
    push_entry(&mut e, "run_id", PyValue::Str(run_id));
    push_entry(&mut e, "started_at", PyValue::Str(started_at));
    push_entry(&mut e, "turn_index", usize_value(turn_index));
    push_entry(&mut e, "error", PyValue::Str(error));
    push_entry(&mut e, "context", agent_context_to_dict(system_prompt, messages));
    push_entry(&mut e, "new_messages", new_messages);
    assert(entries_data(e@) =~= run_fields(id, at) + seq![
        ("turn_index"@, int_d(g.turn_index as int)),
        ("error"@, sd(g.error@)),
        ("context"@, spec_agent_context_dict(g.system_prompt, g.messages@)),
        ("new_messages"@, g.new_messages@),
    ]);
    PyValue::Dict(e)
}

/// The dict of one tool's outcome in a prepare-next-turn context: the call's
/// id with the result's dict, or with the error's text.
pub open spec fn spec_tool_outcome_entry(id: String, r: Result<ToolOutput, String>) -> PyData {
    match r {
        Ok(t) => PyData::Dict(seq![("tool_use_id"@, sd(id@)), ("result"@, spec_tool_result_dict(t))]),
        Err(e) => PyData::Dict(seq![("tool_use_id"@, sd(id@)), ("error"@, sd(e@))]),
    }
}

/// The dicts of a turn's tool outcomes, in order.
pub open spec fn tool_outcomes_data(s: Seq<(String, Result<ToolOutput, String>)>) -> Seq<PyData> {
    s.map_values(|p: (String, Result<ToolOutput, String>)| spec_tool_outcome_entry(p.0, p.1))
}

fn tool_outcome_entry(id: String, r: Result<ToolOutput, String>) -> (v: PyValue)
    ensures
        v@ == spec_tool_outcome_entry(id, r),
{
    let ghost gid = id;
    let mut e = empty_entries();
    push_entry(&mut e, "tool_use_id", PyValue::Str(id));
    match r {
        Ok(t) => {
            let ghost gt = t;
            push_entry(&mut e, "result", tool_result_to_dict(t));
            assert(entries_data(e@) =~= seq![("tool_use_id"@, sd(gid@)), ("result"@, spec_tool_result_dict(gt))]);
        },
        Err(msg) => {
            let ghost gm = msg;
            push_entry(&mut e, "error", PyValue::Str(msg));
            assert(entries_data(e@) =~= seq![("tool_use_id"@, sd(gid@)), ("error"@, sd(gm@))]);
        },
    }
    PyValue::Dict(e)
}

fn tool_outcomes_list(results: Vec<(String, Result<ToolOutput, String>)>) -> (r: PyValue)
    ensures
        r@ == PyData::List(tool_outcomes_data(results@)),
{
    let ghost orig = results@;
    let mut rest = results;
    let mut items: Vec<PyValue> = Vec::new();
    let mut i: usize = 0;
    let total: usize = rest.len();
    assert(rest@ =~= orig.skip(0));
    assert(values_data(items@) =~= tool_outcomes_data(orig.take(0)));
    while rest.len() > 0
        invariant
            i + rest@.len() == orig.len(),
            orig.len() == total,
            rest@ == orig.skip(i as int),
            values_data(items@) == tool_outcomes_data(orig.take(i as int)),
        decreases rest.len(),
    {
        let (id, res) = rest.remove(0);
        let ghost (gid, gres) = (id, res);
        assert(orig[i as int] == (gid, gres));
        push_value(&mut items, tool_outcome_entry(id, res));
        assert(orig.take(i + 1) =~= orig.take(i as int).push(orig[i as int]));
        assert(tool_outcomes_data(orig.take(i + 1)) =~= tool_outcomes_data(orig.take(i as int)).push(
            spec_tool_outcome_entry(gid, gres),
        ));
        i += 1;
        assert(rest@ =~= orig.skip(i as int));
    }
    assert(orig.take(i as int) =~= orig);
    PyValue::List(items)
}

/// The context of a prepare-next-turn hook.
pub open spec fn spec_prepare_next_turn_ctx(
    turn_index: usize,
    last_message: PyData,
    last_tool_results: Seq<(String, Result<ToolOutput, String>)>,
    run_id: String,
    started_at: String,
) -> PyData {
    PyData::Dict(
        seq![
            ("turn_index"@, int_d(turn_index as int)),
            ("last_message"@, last_message),
            ("last_tool_results"@, PyData::List(tool_outcomes_data(last_tool_results))),
        ] + run_fields(run_id, started_at),
    )
}

/// Renders the context of a prepare-next-turn hook.
pub fn prepare_next_turn_ctx(
    turn_index: usize,
    last_message: PyValue,
    last_tool_results: Vec<(String, Result<ToolOutput, String>)>,
    run_id: String,
    started_at: String,
) -> (r: PyValue)
    ensures
        r@ == spec_prepare_next_turn_ctx(
            turn_index,
            last_message@,
            last_tool_results@,
            run_id,
            started_at,
        ),
{
    let ghost (lm, ltr, id, at) = (last_message@, last_tool_results@, run_id, started_at);
    let mut e = empty_entries();
    push_entry(&mut e, "turn_index", usize_value(turn_index));
    push_entry(&mut e, "last_message", last_message);
    push_entry(&mut e, "last_tool_results", tool_outcomes_list(last_tool_results));
    push_entry(&mut e, "run_id", PyValue::Str(run_id));
    push_entry(&mut e, "started_at", PyValue::Str(started_at));
    assert(entries_data(e@) =~= seq![
        ("turn_index"@, int_d(turn_index as int)),
        ("last_message"@, lm),
        ("last_tool_results"@, PyData::List(tool_outcomes_data(ltr))),
    ] + run_fields(id, at));
    PyValue::Dict(e)
}


/// The fields of a tool-call context, ahead of the entries that follow them.
proof fn lemma_tool_call_fields_found(c: ToolCallInfo, rest: Seq<(Seq<char>, PyData)>)
    ensures
        data_field(PyData::Dict(tool_call_fields(c) + rest), "tool_use_id"@) == Some(
            PyData::Str(c.tool_use_id@),
        ),
        data_field(PyData::Dict(tool_call_fields(c) + rest), "tool_name"@) == Some(
            PyData::Str(c.tool_name@),
        ),
        data_field(PyData::Dict(tool_call_fields(c) + rest), "args"@) == Some(c.args@),
        data_field(PyData::Dict(tool_call_fields(c) + rest), "turn_index"@) == Some(
            PyData::Int(c.turn_index as int),
        ),
{
    reveal_strlit("tool_use_id");
    reveal_strlit("tool_name");
    reveal_strlit("args");
    reveal_strlit("turn_index");
    let es = tool_call_fields(c) + rest;
    assert(es[0].0 == "tool_use_id"@);
    assert(es[1].0 == "tool_name"@);
    assert(es[2].0 == "args"@);
    assert(es[3].0 == "turn_index"@);
    assert("tool_use_id"@.len() != "tool_name"@.len());
    assert("tool_use_id"@.len() != "args"@.len());
    assert("tool_name"@.len() != "args"@.len());
    assert("tool_use_id"@.len() != "turn_index"@.len());
    assert("tool_name"@.len() != "turn_index"@.len());
    assert("args"@.len() != "turn_index"@.len());
    lemma_entries_field_at(es, "tool_use_id"@, 0);
    lemma_entries_field_at(es, "tool_name"@, 1);
    lemma_entries_field_at(es, "args"@, 2);
    lemma_entries_field_at(es, "turn_index"@, 3);
}

/// Every tool-call hook context, before and after the call, holds the call's
/// id under `tool_use_id`, the tool's name under `tool_name`, its arguments
/// under `args` and the turn's index under `turn_index`.
pub proof fn law_tool_call_contexts_carry_their_fields(
    c: ToolCallInfo,
    result: Result<ToolOutput, String>,
    run_id: String,
    started_at: String,
)
    ensures
        data_field(spec_before_tool_call_ctx(c, run_id, started_at), "tool_use_id"@) == Some(
            PyData::Str(c.tool_use_id@),
        ),
        data_field(spec_before_tool_call_ctx(c, run_id, started_at), "tool_name"@) == Some(
            PyData::Str(c.tool_name@),
        ),
        data_field(spec_before_tool_call_ctx(c, run_id, started_at), "args"@) == Some(c.args@),
        data_field(spec_before_tool_call_ctx(c, run_id, started_at), "turn_index"@) == Some(
            PyData::Int(c.turn_index as int),
        ),
        data_field(spec_after_tool_call_ctx(c, result, run_id, started_at), "tool_use_id"@) == Some(
            PyData::Str(c.tool_use_id@),
        ),
        data_field(spec_after_tool_call_ctx(c, result, run_id, started_at), "tool_name"@) == Some(
            PyData::Str(c.tool_name@),
        ),
        data_field(spec_after_tool_call_ctx(c, result, run_id, started_at), "args"@) == Some(c.args@),
        data_field(spec_after_tool_call_ctx(c, result, run_id, started_at), "turn_index"@) == Some(
            PyData::Int(c.turn_index as int),
        ),
{
    lemma_tool_call_fields_found(c, run_fields(run_id, started_at));
    let mid = seq![
        ("result_ok"@, PyData::Bool(result is Ok)),
        ("result"@, spec_tool_run_value(result)),
    ];
    lemma_tool_call_fields_found(c, mid + run_fields(run_id, started_at));
    assert(tool_call_fields(c) + mid + run_fields(run_id, started_at) =~= tool_call_fields(c) + (mid
        + run_fields(run_id, started_at)));
}

} // verus!
