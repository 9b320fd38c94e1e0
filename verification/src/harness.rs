//! The harness as Python sees it: phases, events rendered as dicts, the
//! event iterator, event collection and the helpers around prompts.

use vstd::prelude::*;

use crate::content::ContentBlock;
use crate::error::{ErrorView, PyErrorKind, SdkError, err_view};
use crate::text::{str_eq, string_from};
use crate::value::{
    data_field, lemma_entries_field_at, dict_get, dict_lookup, push_value, values_data, entries_data, push_entry, str_list_value, str_value, strings_data, usize_value, PyData, PyValue,
};

verus! {

/// The phase a harness is in.
#[derive(Debug, Clone, Copy, PartialEq, Eq)]
pub enum HarnessPhase {
    Idle,
    Turning,
    Compacting,
    Branching,
    /// A phase this SDK does not name.
    Unknown,
}

/// The name Python sees for a phase.
pub open spec fn spec_phase_str(p: HarnessPhase) -> Seq<char> {
    match p {
        HarnessPhase::Idle => "idle"@,
        HarnessPhase::Turning => "turning"@,
        HarnessPhase::Compacting => "compacting"@,
        HarnessPhase::Branching => "branching"@,
        HarnessPhase::Unknown => "unknown"@,
    }
}

/// The name Python sees for a phase.
pub fn phase_str(p: HarnessPhase) -> (r: &'static str)
    ensures
        r@ == spec_phase_str(p),
{
    match p {
        HarnessPhase::Idle => "idle",
        HarnessPhase::Turning => "turning",
        HarnessPhase::Compacting => "compacting",
        HarnessPhase::Branching => "branching",
        HarnessPhase::Unknown => "unknown",
    }
}

/// Why the model stopped generating.
#[derive(Debug, Clone, Copy, PartialEq, Eq)]
pub enum StopReason {
    EndTurn,
    MaxTokens,
    StopSequence,
    ToolUse,
    Other,
}

/// The name Python sees for a stop reason.
pub open spec fn spec_stop_reason_str(r: StopReason) -> Seq<char> {
    match r {
        StopReason::EndTurn => "end_turn"@,
        StopReason::MaxTokens => "max_tokens"@,
        StopReason::StopSequence => "stop_sequence"@,
        StopReason::ToolUse => "tool_use"@,
        StopReason::Other => "other"@,
    }
}

/// The name Python sees for a stop reason.
pub fn stop_reason_to_str(reason: StopReason) -> (r: &'static str)
    ensures
        r@ == spec_stop_reason_str(reason),
{
    match reason {
        StopReason::EndTurn => "end_turn",
        StopReason::MaxTokens => "max_tokens",
        StopReason::StopSequence => "stop_sequence",
        StopReason::ToolUse => "tool_use",
        StopReason::Other => "other",
    }
}

/// An event of the harness. Fields that the runtime only shows through
/// their debug rendering (thinking levels, entry ids, statistics,
/// diagnostics) are given as that text. `Agent` is an event of the agent
/// loop, already rendered as a dict.
#[derive(Debug, PartialEq, Eq)]
pub enum HarnessEvent {
    Agent(PyValue),
    PhaseChange { from: HarnessPhase, to: HarnessPhase },
    ModelUpdate { from: String, to: String },
    ThinkingLevelUpdate { from: String, to: String },
    ToolsUpdate { added: Vec<String>, removed: Vec<String> },
    ActiveToolsUpdate { active: Option<Vec<String>> },
    ResourcesUpdate { skills: usize, templates: usize, diagnostics: Vec<String> },
    SessionInfoUpdate { name: PyValue },
    CompactionStart { estimated_tokens: usize },
    CompactionEnd { stats: Option<String>, error: Option<String> },
    QueueUpdate { steer_len: usize, follow_up_len: usize },
    SavePoint { entries_flushed: usize },
    BranchForked { from: String, new_leaf: String, label: Option<String> },
    BranchSwitched { from: String, to: String },
    BranchDeleted { leaf: String },
    BranchSummarized { leaf: String, summary: String },
    ToolCallStart { tool_use_id: String, tool_name: String, args: PyValue },
    ToolCallEnd { tool_use_id: String, tool_name: String, details: PyValue, is_error: bool },
    Settled,
    Aborted,
}

/// Whether an event ends a run (`settled` or `aborted`).
pub open spec fn is_terminal(e: HarnessEvent) -> bool {
    e is Settled || e is Aborted
}

/// A `str` in the mathematical form of values.
pub open spec fn sd(s: Seq<char>) -> PyData {
    PyData::Str(s)
}

/// An optional string in the mathematical form of values (`None` when absent).
pub open spec fn opt_sd(o: Option<String>) -> PyData {
    match o {
        Some(s) => PyData::Str(s@),
        None => PyData::NoneValue,
    }
}

/// A dict `{"type": t}` followed by the given entries.
pub open spec fn typed(t: Seq<char>, rest: Seq<(Seq<char>, PyData)>) -> PyData {
    PyData::Dict(seq![("type"@, sd(t))] + rest)
}

/// The dict Python sees for a harness event.
pub open spec fn spec_event_dict(e: HarnessEvent) -> PyData {
    match e {
        HarnessEvent::Agent(v) => v@,
        HarnessEvent::PhaseChange { from, to } => typed(
            "phase_change"@,
            seq![("from"@, sd(spec_phase_str(from))), ("to"@, sd(spec_phase_str(to)))],
        ),
        HarnessEvent::ModelUpdate { from, to } => typed(
            "model_update"@,
            seq![("from"@, sd(from@)), ("to"@, sd(to@))],
        ),
        HarnessEvent::ThinkingLevelUpdate { from, to } => typed(
            "thinking_level_update"@,
            seq![("from"@, sd(from@)), ("to"@, sd(to@))],
        ),
        HarnessEvent::ToolsUpdate { added, removed } => typed(
            "tools_update"@,
            seq![
                ("added"@, PyData::List(strings_data(added@))),
                ("removed"@, PyData::List(strings_data(removed@))),
            ],
        ),
        HarnessEvent::ActiveToolsUpdate { active } => typed(
            "active_tools_update"@,
            seq![
                (
                    "active"@,
                    match active {
                        Some(tools) => PyData::PySet(strings_data(tools@)),
                        None => PyData::NoneValue,
                    },
                ),
            ],
        ),
        HarnessEvent::ResourcesUpdate { skills, templates, diagnostics } => typed(
            "resources_update"@,
            seq![
                ("skills"@, PyData::Int(skills as int)),
                ("templates"@, PyData::Int(templates as int)),
                ("diagnostics"@, PyData::List(strings_data(diagnostics@))),
            ],
        ),
        HarnessEvent::SessionInfoUpdate { name } => typed(
            "session_info_update"@,
            seq![("name"@, name@)],
        ),
        HarnessEvent::CompactionStart { estimated_tokens } => typed(
            "compaction_start"@,
            seq![("estimated_tokens"@, PyData::Int(estimated_tokens as int))],
        ),
        HarnessEvent::CompactionEnd { stats, error } => typed(
            "compaction_end"@,
            seq![("stats"@, opt_sd(stats)), ("error"@, opt_sd(error))],
        ),
        HarnessEvent::QueueUpdate { steer_len, follow_up_len } => typed(
            "queue_update"@,
            seq![
                ("steer_len"@, PyData::Int(steer_len as int)),
                ("follow_up_len"@, PyData::Int(follow_up_len as int)),
            ],
        ),
        HarnessEvent::SavePoint { entries_flushed } => typed(
            "savepoint"@,
            seq![("entries_flushed"@, PyData::Int(entries_flushed as int))],
        ),
        HarnessEvent::BranchForked { from, new_leaf, label } => typed(
            "branch_forked"@,
            seq![("from"@, sd(from@)), ("new_leaf"@, sd(new_leaf@)), ("label"@, opt_sd(label))],
        ),
        HarnessEvent::BranchSwitched { from, to } => typed(
            "branch_switched"@,
            seq![("from"@, sd(from@)), ("to"@, sd(to@))],
        ),
        HarnessEvent::BranchDeleted { leaf } => typed("branch_deleted"@, seq![("leaf"@, sd(leaf@))]),
        HarnessEvent::BranchSummarized { leaf, summary } => typed(
            "branch_summarized"@,
            seq![("leaf"@, sd(leaf@)), ("summary"@, sd(summary@))],
        ),
        HarnessEvent::ToolCallStart { tool_use_id, tool_name, args } => typed(
            "harness_tool_call_start"@,
            seq![("tool_use_id"@, sd(tool_use_id@)), ("tool_name"@, sd(tool_name@)), ("args"@, args@)],
        ),
        HarnessEvent::ToolCallEnd { tool_use_id, tool_name, details, is_error } => typed(
            "harness_tool_call_end"@,
            seq![
                ("tool_use_id"@, sd(tool_use_id@)),
                ("tool_name"@, sd(tool_name@)),
                (
                    "result"@,
                    PyData::Dict(seq![("details"@, details@), ("is_error"@, PyData::Bool(is_error))]),
                ),
            ],
        ),
        HarnessEvent::Settled => typed("settled"@, seq![]),
        HarnessEvent::Aborted => typed("aborted"@, seq![]),
    }
}

fn opt_str_value(o: Option<String>) -> (r: PyValue)
    ensures
        r@ == opt_sd(o),
{
    match o {
        Some(s) => PyValue::Str(s),
        None => PyValue::NoneValue,
    }
}

/// A dict whose first entry is `"type": t`.
fn typed_entries(t: &str) -> (r: Vec<(String, PyValue)>)
    ensures
        entries_data(r@) == seq![("type"@, sd(t@))],
{
    let mut r: Vec<(String, PyValue)> = Vec::new();
    assert(entries_data(r@) =~= Seq::<(Seq<char>, PyData)>::empty());
    push_entry(&mut r, "type", str_value(t));
    assert(entries_data(r@) =~= seq![("type"@, sd(t@))]);
    r
}

/// Renders a harness event as the dict Python sees.
pub fn harness_event_to_dict(event: HarnessEvent) -> (r: PyValue)
    ensures
        r@ == spec_event_dict(event),
{
    let ghost ev = event;
    match event {
        HarnessEvent::Agent(v) => v,
        HarnessEvent::PhaseChange { from, to } => {
            let mut e = typed_entries("phase_change");
            push_entry(&mut e, "from", str_value(phase_str(from)));
            push_entry(&mut e, "to", str_value(phase_str(to)));
            assert(entries_data(e@) =~= seq![("type"@, sd("phase_change"@))] + seq![
                ("from"@, sd(spec_phase_str(from))),
                ("to"@, sd(spec_phase_str(to))),
            ]);
            PyValue::Dict(e)
        },
        HarnessEvent::ModelUpdate { from, to } => {
            let mut e = typed_entries("model_update");
            push_entry(&mut e, "from", PyValue::Str(from));
            push_entry(&mut e, "to", PyValue::Str(to));
            assert(entries_data(e@) =~= seq![("type"@, sd("model_update"@))] + seq![
                ("from"@, sd(ev->ModelUpdate_from@)),
                ("to"@, sd(ev->ModelUpdate_to@)),
            ]);
            PyValue::Dict(e)
        },
        HarnessEvent::ThinkingLevelUpdate { from, to } => {
            let mut e = typed_entries("thinking_level_update");
            push_entry(&mut e, "from", PyValue::Str(from));
            push_entry(&mut e, "to", PyValue::Str(to));
            assert(entries_data(e@) =~= seq![("type"@, sd("thinking_level_update"@))] + seq![
                ("from"@, sd(ev->ThinkingLevelUpdate_from@)),
                ("to"@, sd(ev->ThinkingLevelUpdate_to@)),
            ]);
            PyValue::Dict(e)
        },
        HarnessEvent::ToolsUpdate { added, removed } => {
            let mut e = typed_entries("tools_update");
            push_entry(&mut e, "added", str_list_value(&added));
            push_entry(&mut e, "removed", str_list_value(&removed));
            assert(entries_data(e@) =~= seq![("type"@, sd("tools_update"@))] + seq![
                ("added"@, PyData::List(strings_data(added@))),
                ("removed"@, PyData::List(strings_data(removed@))),
            ]);
            PyValue::Dict(e)
        },
        HarnessEvent::ActiveToolsUpdate { active } => {
            let mut e = typed_entries("active_tools_update");
            let v = match active {
                Some(tools) => {
                    let l = str_list_value(&tools);
                    match l {
                        PyValue::List(items) => PyValue::PySet(items),
                        other => other,
                    }
                },
                None => PyValue::NoneValue,
            };
            push_entry(&mut e, "active", v);
            assert(entries_data(e@) =~= seq![("type"@, sd("active_tools_update"@))] + seq![
                (
                    "active"@,
                    match ev->ActiveToolsUpdate_active {
                        Some(tools) => PyData::PySet(strings_data(tools@)),
                        None => PyData::NoneValue,
                    },
                ),
            ]);
            PyValue::Dict(e)
        },
        HarnessEvent::ResourcesUpdate { skills, templates, diagnostics } => {
            let mut e = typed_entries("resources_update");
            push_entry(&mut e, "skills", usize_value(skills));
            push_entry(&mut e, "templates", usize_value(templates));
            push_entry(&mut e, "diagnostics", str_list_value(&diagnostics));
            assert(entries_data(e@) =~= seq![("type"@, sd("resources_update"@))] + seq![
                ("skills"@, PyData::Int(skills as int)),
                ("templates"@, PyData::Int(templates as int)),
                ("diagnostics"@, PyData::List(strings_data(diagnostics@))),
            ]);
            PyValue::Dict(e)
        },
        HarnessEvent::SessionInfoUpdate { name } => {
            let mut e = typed_entries("session_info_update");
            let ghost nv = name@;
            push_entry(&mut e, "name", name);
            assert(entries_data(e@) =~= seq![("type"@, sd("session_info_update"@))] + seq![
                ("name"@, nv),
            ]);
            PyValue::Dict(e)
        },
        HarnessEvent::CompactionStart { estimated_tokens } => {
            let mut e = typed_entries("compaction_start");
            push_entry(&mut e, "estimated_tokens", usize_value(estimated_tokens));
            assert(entries_data(e@) =~= seq![("type"@, sd("compaction_start"@))] + seq![
                ("estimated_tokens"@, PyData::Int(estimated_tokens as int)),
            ]);
            PyValue::Dict(e)
        },
        HarnessEvent::CompactionEnd { stats, error } => {
            let mut e = typed_entries("compaction_end");
            push_entry(&mut e, "stats", opt_str_value(stats));
            push_entry(&mut e, "error", opt_str_value(error));
            assert(entries_data(e@) =~= seq![("type"@, sd("compaction_end"@))] + seq![
                ("stats"@, opt_sd(ev->CompactionEnd_stats)),
                ("error"@, opt_sd(ev->CompactionEnd_error)),
            ]);
            PyValue::Dict(e)
        },
        HarnessEvent::QueueUpdate { steer_len, follow_up_len } => {
            let mut e = typed_entries("queue_update");
            push_entry(&mut e, "steer_len", usize_value(steer_len));
            push_entry(&mut e, "follow_up_len", usize_value(follow_up_len));
            assert(entries_data(e@) =~= seq![("type"@, sd("queue_update"@))] + seq![
                ("steer_len"@, PyData::Int(steer_len as int)),
                ("follow_up_len"@, PyData::Int(follow_up_len as int)),
            ]);
            PyValue::Dict(e)
        },
        HarnessEvent::SavePoint { entries_flushed } => {
            let mut e = typed_entries("savepoint");
            push_entry(&mut e, "entries_flushed", usize_value(entries_flushed));
            assert(entries_data(e@) =~= seq![("type"@, sd("savepoint"@))] + seq![
                ("entries_flushed"@, PyData::Int(entries_flushed as int)),
            ]);
            PyValue::Dict(e)
        },
        HarnessEvent::BranchForked { from, new_leaf, label } => {
            let mut e = typed_entries("branch_forked");
            push_entry(&mut e, "from", PyValue::Str(from));
            push_entry(&mut e, "new_leaf", PyValue::Str(new_leaf));
            push_entry(&mut e, "label", opt_str_value(label));
            assert(entries_data(e@) =~= seq![("type"@, sd("branch_forked"@))] + seq![
                ("from"@, sd(ev->BranchForked_from@)),
                ("new_leaf"@, sd(ev->BranchForked_new_leaf@)),
                ("label"@, opt_sd(ev->BranchForked_label)),
            ]);
            PyValue::Dict(e)
        },
        HarnessEvent::BranchSwitched { from, to } => {
            let mut e = typed_entries("branch_switched");
            push_entry(&mut e, "from", PyValue::Str(from));
            push_entry(&mut e, "to", PyValue::Str(to));
            assert(entries_data(e@) =~= seq![("type"@, sd("branch_switched"@))] + seq![
                ("from"@, sd(ev->BranchSwitched_from@)),
                ("to"@, sd(ev->BranchSwitched_to@)),
            ]);
            PyValue::Dict(e)
        },
        HarnessEvent::BranchDeleted { leaf } => {
            let mut e = typed_entries("branch_deleted");
            push_entry(&mut e, "leaf", PyValue::Str(leaf));
            assert(entries_data(e@) =~= seq![("type"@, sd("branch_deleted"@))] + seq![
                ("leaf"@, sd(ev->BranchDeleted_leaf@)),
            ]);
            PyValue::Dict(e)
        },
        HarnessEvent::BranchSummarized { leaf, summary } => {
            let mut e = typed_entries("branch_summarized");
            push_entry(&mut e, "leaf", PyValue::Str(leaf));
            push_entry(&mut e, "summary", PyValue::Str(summary));
            assert(entries_data(e@) =~= seq![("type"@, sd("branch_summarized"@))] + seq![
                ("leaf"@, sd(ev->BranchSummarized_leaf@)),
                ("summary"@, sd(ev->BranchSummarized_summary@)),
            ]);
            PyValue::Dict(e)
        },
        HarnessEvent::ToolCallStart { tool_use_id, tool_name, args } => {
            let mut e = typed_entries("harness_tool_call_start");
            let ghost av = args@;
            push_entry(&mut e, "tool_use_id", PyValue::Str(tool_use_id));
            push_entry(&mut e, "tool_name", PyValue::Str(tool_name));
            push_entry(&mut e, "args", args);
            assert(entries_data(e@) =~= seq![("type"@, sd("harness_tool_call_start"@))] + seq![
                ("tool_use_id"@, sd(ev->ToolCallStart_tool_use_id@)),
                ("tool_name"@, sd(ev->ToolCallStart_tool_name@)),
                ("args"@, av),
            ]);
            PyValue::Dict(e)
        },
        HarnessEvent::ToolCallEnd { tool_use_id, tool_name, details, is_error } => {
            let mut e = typed_entries("harness_tool_call_end");
            let ghost dv = details@;
            push_entry(&mut e, "tool_use_id", PyValue::Str(tool_use_id));
            push_entry(&mut e, "tool_name", PyValue::Str(tool_name));
            let mut res: Vec<(String, PyValue)> = Vec::new();
            assert(entries_data(res@) =~= Seq::<(Seq<char>, PyData)>::empty());
            push_entry(&mut res, "details", details);
            push_entry(&mut res, "is_error", PyValue::Bool(is_error));
            assert(entries_data(res@) =~= seq![("details"@, dv), ("is_error"@, PyData::Bool(is_error))]);
            push_entry(&mut e, "result", PyValue::Dict(res));
            assert(entries_data(e@) =~= seq![("type"@, sd("harness_tool_call_end"@))] + seq![
                ("tool_use_id"@, sd(ev->ToolCallEnd_tool_use_id@)),
                ("tool_name"@, sd(ev->ToolCallEnd_tool_name@)),
                (
                    "result"@,
                    PyData::Dict(seq![("details"@, dv), ("is_error"@, PyData::Bool(is_error))]),
                ),
            ]);
            PyValue::Dict(e)
        },
        HarnessEvent::Settled => {
            let e = typed_entries("settled");
            assert(entries_data(e@) =~= seq![("type"@, sd("settled"@))] + Seq::empty());
            PyValue::Dict(e)
        },
        HarnessEvent::Aborted => {
            let e = typed_entries("aborted");
            assert(entries_data(e@) =~= seq![("type"@, sd("aborted"@))] + Seq::empty());
            PyValue::Dict(e)
        },
    }
}

/// What the event iterator keeps between calls: how many waits in a row
/// have timed out, and the tolerance it was created with. A timeout never
/// ends iteration, whatever the tolerance.
#[derive(Debug, Clone, Copy, PartialEq, Eq)]
pub struct EventIterState {
    pub consecutive_timeouts: u32,
    pub max_consecutive_timeouts: u32,
}

/// How one wait for the next event ended.
#[derive(Debug, PartialEq, Eq)]
pub enum RecvOutcome {
    Event(HarnessEvent),
    /// The receiver fell behind and skipped this many events.
    Lagged(u64),
    /// The event channel is closed.
    Closed,
    /// No event came within the timeout.
    TimedOut,
}

/// What the iterator's `__next__` does: yield a dict, or stop iterating.
#[derive(Debug, PartialEq, Eq)]
pub enum IterStep {
    Yield(PyValue),
    Finish,
}

/// The dict yielded when the receiver skipped `n` events.
pub open spec fn lagged_dict(n: u64) -> PyData {
    typed("lagged"@, seq![("skipped"@, PyData::Int(n as int))])
}

/// The dict yielded when a wait timed out; iteration goes on.
pub open spec fn timeout_dict() -> PyData {
    typed("timeout"@, seq![])
}

/// The mathematical form of an iterator step (`None` for finishing).
pub open spec fn step_view(s: IterStep) -> Option<PyData> {
    match s {
        IterStep::Yield(v) => Some(v@),
        IterStep::Finish => None,
    }
}

/// What the iterator yields for `outcome`, given its state before: the dict
/// of an event, a `lagged` or a `timeout` dict, or the end of iteration once
/// the channel is closed. A timeout does not end iteration.
pub open spec fn spec_next_step(st: EventIterState, outcome: RecvOutcome) -> Option<PyData> {
    match outcome {
        RecvOutcome::Event(e) => Some(spec_event_dict(e)),
        RecvOutcome::Lagged(n) => Some(lagged_dict(n)),
        RecvOutcome::Closed => None,
        RecvOutcome::TimedOut => Some(timeout_dict()),
    }
}

/// The iterator's state after `outcome`: an event resets the count of
/// timeouts in a row, a timeout adds one, anything else leaves it.
pub open spec fn spec_next_state(st: EventIterState, outcome: RecvOutcome) -> EventIterState {
    match outcome {
        RecvOutcome::Event(_) => EventIterState { consecutive_timeouts: 0, ..st },
        RecvOutcome::TimedOut => EventIterState {
            consecutive_timeouts: (st.consecutive_timeouts + 1) as u32,
            ..st
        },
        _ => st,
    }
}

/// One call of the harness event iterator's `__next__`, once the wait for an
/// event has ended with `outcome`.
pub fn next_event_step(state: &mut EventIterState, outcome: RecvOutcome) -> (r: IterStep)
    requires
        outcome is TimedOut ==> old(state).consecutive_timeouts < u32::MAX,
    ensures
        step_view(r) == spec_next_step(*old(state), outcome),
        *final(state) == spec_next_state(*old(state), outcome),
{
    match outcome {
        RecvOutcome::Event(e) => {
            state.consecutive_timeouts = 0;
            IterStep::Yield(harness_event_to_dict(e))
        },
        RecvOutcome::Lagged(n) => {
            let mut e = typed_entries("lagged");
            push_entry(&mut e, "skipped", PyValue::Int(n as i128));
            assert(entries_data(e@) =~= seq![("type"@, sd("lagged"@))] + seq![
                ("skipped"@, PyData::Int(n as int)),
            ]);
            IterStep::Yield(PyValue::Dict(e))
        },
        RecvOutcome::Closed => IterStep::Finish,
        RecvOutcome::TimedOut => {
            state.consecutive_timeouts = state.consecutive_timeouts + 1;
            let e = typed_entries("timeout");
            assert(entries_data(e@) =~= seq![("type"@, sd("timeout"@))] + Seq::empty());
            IterStep::Yield(PyValue::Dict(e))
        },
    }
}

/// The events gathered while waiting for a run to settle.
pub struct EventCollector {
    pub events: Vec<PyValue>,
    /// Whether a `settled` or `aborted` event arrived.
    pub got_terminal: bool,
    /// Whether gathering has stopped.
    pub finished: bool,
}

impl EventCollector {
    /// A collector that has gathered nothing yet.
    pub fn new() -> (c: EventCollector)
        ensures
            c.events@.len() == 0,
            !c.got_terminal,
            !c.finished,
    {
        EventCollector { events: Vec::new(), got_terminal: false, finished: false }
    }

    /// Records an event; a `settled` or `aborted` event ends gathering.
    pub fn on_event(&mut self, event: HarnessEvent)
        requires
            !old(self).finished,
        ensures
            values_data(final(self).events@) == values_data(old(self).events@).push(
                spec_event_dict(event),
            ),
            final(self).got_terminal == is_terminal(event),
            final(self).finished == is_terminal(event),
    {
        let terminal = match &event {
            HarnessEvent::Settled => true,
            HarnessEvent::Aborted => true,
            _ => false,
        };
        let d = harness_event_to_dict(event);
        push_value(&mut self.events, d);
        self.got_terminal = terminal;
        self.finished = terminal;
    }

    /// Ends gathering because no event came in time or the channel closed.
    pub fn on_quiet(&mut self)
        ensures
            final(self).events == old(self).events,
            final(self).got_terminal == old(self).got_terminal,
            final(self).finished,
    {
        self.finished = true;
    }

    /// Whether the run still going in the background must be aborted: it
    /// must when gathering stopped without a `settled` or `aborted` event.
    pub fn must_abort_run(&self) -> (r: bool)
        ensures
            r == !self.got_terminal,
    {
        !self.got_terminal
    }
}

/// How the background run of `prompt_and_collect` ended.
#[derive(Debug, PartialEq, Eq)]
pub enum PromptRunOutcome {
    /// The run returned normally; `error_message` is the harness's recorded
    /// error, if the LLM call failed.
    Completed { error_message: Option<String> },
    /// The run returned an error, already in its Python form.
    Failed(SdkError),
    /// The run was aborted because gathering stopped first.
    Cancelled,
    /// The task running the run failed; its text.
    JoinFailed(String),
}

/// What `prompt_and_collect` returns, given the gathered events and how the
/// run ended.
pub open spec fn spec_prompt_and_collect_result(events: Seq<PyValue>, outcome: PromptRunOutcome) -> Result<
    Seq<PyValue>,
    ErrorView,
> {
    match outcome {
        PromptRunOutcome::Completed { error_message } => match error_message {
            Some(m) => Err(err_view(PyErrorKind::RuntimeError, m@)),
            None => Ok(events),
        },
        PromptRunOutcome::Failed(e) => Err(e@),
        PromptRunOutcome::Cancelled => Ok(events),
        PromptRunOutcome::JoinFailed(t) => Err(err_view(PyErrorKind::RuntimeError, t@)),
    }
}

/// The result of `prompt_and_collect`: the gathered events, unless the run
/// failed (a recorded LLM error counts as a failure).
pub fn prompt_and_collect_result(events: Vec<PyValue>, outcome: PromptRunOutcome) -> (r: Result<
    Vec<PyValue>,
    SdkError,
>)
    ensures
        match r {
            Ok(v) => spec_prompt_and_collect_result(events@, outcome) == Ok::<Seq<PyValue>, ErrorView>(v@),
            Err(e) => spec_prompt_and_collect_result(events@, outcome) == Err::<Seq<PyValue>, ErrorView>(e@),
        },
{
    match outcome {
        PromptRunOutcome::Completed { error_message } => match error_message {
            Some(m) => Err(SdkError::runtime_error(m)),
            None => Ok(events),
        },
        PromptRunOutcome::Failed(e) => Err(e),
        PromptRunOutcome::Cancelled => Ok(events),
        PromptRunOutcome::JoinFailed(t) => Err(SdkError::runtime_error(t)),
    }
}

/// The text of one content block of a serialized message: its `text` when
/// its `type` is `"text"`, nothing otherwise.
pub open spec fn block_text(b: PyValue) -> Seq<char> {
    match b {
        PyValue::Dict(e) => match (dict_lookup(e@, "type"@), dict_lookup(e@, "text"@)) {
            (Some(PyValue::Str(t)), Some(PyValue::Str(x))) => if t@ == "text"@ {
                x@
            } else {
                Seq::empty()
            },
            _ => Seq::empty(),
        },
        _ => Seq::empty(),
    }
}

/// The texts of content blocks, run together.
pub open spec fn blocks_text(bs: Seq<PyValue>) -> Seq<char>
    decreases bs.len(),
{
    if bs.len() == 0 {
        Seq::empty()
    } else {
        blocks_text(bs.drop_last()) + block_text(bs.last())
    }
}

/// The reply text of a serialized message when it is an assistant message
/// with a content list.
pub open spec fn assistant_text(m: PyValue) -> Option<Seq<char>> {
    match m {
        PyValue::Dict(e) => match (dict_lookup(e@, "role"@), dict_lookup(e@, "content"@)) {
            (Some(PyValue::Str(role)), Some(PyValue::List(items))) => if role@ == "assistant"@ {
                Some(blocks_text(items@))
            } else {
                None
            },
            _ => None,
        },
        _ => None,
    }
}

/// The text of the last assistant message among `ms`, or the empty text.
pub open spec fn spec_last_response(ms: Seq<PyValue>) -> Seq<char>
    decreases ms.len(),
{
    if ms.len() == 0 {
        Seq::empty()
    } else {
        match assistant_text(ms.last()) {
            Some(t) => t,
            None => spec_last_response(ms.drop_last()),
        }
    }
}

fn block_text_of(b: &PyValue) -> (r: Option<&String>)
    ensures
        match r {
            Some(s) => block_text(*b) == s@,
            None => block_text(*b) == Seq::<char>::empty(),
        },
{
    match b {
        PyValue::Dict(e) => match (dict_get(e, "type"), dict_get(e, "text")) {
            (Some(PyValue::Str(t)), Some(PyValue::Str(x))) => if str_eq(t.as_str(), "text") {
                Some(x)
            } else {
                None
            },
            _ => None,
        },
        _ => None,
    }
}

fn joined_block_texts(items: &Vec<PyValue>) -> (r: String)
    ensures
        r@ == blocks_text(items@),
{
    let mut r = String::new();
    let mut i: usize = 0;
    while i < items.len()
        invariant
            i <= items.len(),
            r@ == blocks_text(items@.take(i as int)),
        decreases items.len() - i,
    {
        assert(items@.take(i + 1).drop_last() =~= items@.take(i as int));
        match block_text_of(&items[i]) {
            Some(t) => r.append(t.as_str()),
            None => {
                assert(r@ =~= r@ + Seq::<char>::empty());
            },
        }
        i += 1;
    }
    assert(items@.take(items.len() as int) =~= items@);
    r
}

fn assistant_text_of(m: &PyValue) -> (r: Option<String>)
    ensures
        match r {
            Some(t) => assistant_text(*m) == Some(t@),
            None => assistant_text(*m) is None,
        },
{
    match m {
        PyValue::Dict(e) => match (dict_get(e, "role"), dict_get(e, "content")) {
            (Some(PyValue::Str(role)), Some(PyValue::List(items))) => if str_eq(
                role.as_str(),
                "assistant",
            ) {
                Some(joined_block_texts(items))
            } else {
                None
            },
            _ => None,
        },
        _ => None,
    }
}

/// The text of the latest assistant reply among serialized messages: the
/// text blocks of the last assistant message that has a content list, run
/// together; the empty string when there is none.
pub fn last_response(messages: &Vec<PyValue>) -> (r: String)
    ensures
        r@ == spec_last_response(messages@),
{
    let mut i: usize = messages.len();
    assert(messages@.take(i as int) =~= messages@);
    while i > 0
        invariant
            i <= messages.len(),
            spec_last_response(messages@) == spec_last_response(messages@.take(i as int)),
        decreases i,
    {
        assert(messages@.take(i as int).drop_last() =~= messages@.take(i - 1));
        assert(messages@.take(i as int).last() == messages@[i - 1]);
        match assistant_text_of(&messages[i - 1]) {
            Some(t) => return t,
            None => {},
        }
        i -= 1;
    }
    String::new()
}

/// The content of a user message built from a prompt: the text first, then
/// the attachments in order.
pub fn user_message_content(text: &str, attachments: Vec<ContentBlock>) -> (r: Vec<ContentBlock>)
    ensures
        r@ == seq![ContentBlock::Text { text: r@[0]->Text_text }] + attachments@,
        r@[0]->Text_text@ == text@,
{
    let mut r: Vec<ContentBlock> = Vec::new();
    r.push(ContentBlock::Text { text: string_from(text) });
    let mut atts = attachments;
    r.append(&mut atts);
    r
}

/// Who a run acts for when it reads knowledge, memory or session recall: a
/// scope, a principal and the principal's kind.
#[derive(Debug, Clone, PartialEq, Eq)]
pub struct KnowledgeAccess {
    pub scope: String,
    pub principal: String,
    pub kind: String,
}

/// The access a run gets when the application sets none: the trusted
/// single user of the SDK.
pub fn default_knowledge_access() -> (a: KnowledgeAccess)
    ensures
        a.scope@ == "senza"@,
        a.principal@ == "python-sdk"@,
        a.kind@ == "user"@,
{
    KnowledgeAccess {
        scope: string_from("senza"),
        principal: string_from("python-sdk"),
        kind: string_from("user"),
    }
}

/// The access a harness's runs carry: the one set on it, or the default.
pub fn effective_access(configured: Option<KnowledgeAccess>) -> (a: KnowledgeAccess)
    ensures
        configured is Some ==> a == configured->Some_0,
        configured is None ==> a.scope@ == "senza"@ && a.principal@ == "python-sdk"@ && a.kind@
            == "user"@,
{
    match configured {
        Some(a) => a,
        None => default_knowledge_access(),
    }
}

/// How a harness shows itself: `AgentHarness(model=<model>, phase=<phase>)`.
pub fn harness_repr(model: &str, phase: HarnessPhase) -> (r: String)
    ensures
        r@ == "AgentHarness(model="@ + model@ + ", phase="@ + spec_phase_str(phase) + ")"@,
{
    let mut r = string_from("AgentHarness(model=");
    r.append(model);
    r.append(", phase=");
    r.append(phase_str(phase));
    r.append(")");
    r
}


/// The iterator's state after `k` waits in a row that timed out.
pub open spec fn after_timeouts(st: EventIterState, k: nat) -> EventIterState
    decreases k,
{
    if k == 0 {
        st
    } else {
        spec_next_state(after_timeouts(st, (k - 1) as nat), RecvOutcome::TimedOut)
    }
}

proof fn lemma_after_timeouts_count(st: EventIterState, k: nat)
    requires
        st.consecutive_timeouts + k <= u32::MAX,
    ensures
        after_timeouts(st, k).consecutive_timeouts == st.consecutive_timeouts + k,
        after_timeouts(st, k).max_consecutive_timeouts == st.max_consecutive_timeouts,
    decreases k,
{
    if k > 0 {
        lemma_after_timeouts_count(st, (k - 1) as nat);
    }
}

/// A timeout never ends iteration: after an event and any number `k` of
/// waits in a row that timed out, the next wait that times out still yields
/// a `timeout` dict, and the count of timeouts in a row becomes `k + 1`.
pub proof fn law_timeouts_do_not_end_iteration(st: EventIterState, e: HarnessEvent, k: nat)
    requires
        k < u32::MAX,
    ensures
        spec_next_state(st, RecvOutcome::Event(e)).consecutive_timeouts == 0,
        spec_next_step(
            after_timeouts(spec_next_state(st, RecvOutcome::Event(e)), k),
            RecvOutcome::TimedOut,
        ) == Some(timeout_dict()),
        spec_next_state(
            after_timeouts(spec_next_state(st, RecvOutcome::Event(e)), k),
            RecvOutcome::TimedOut,
        ).consecutive_timeouts == k + 1,
{
    lemma_after_timeouts_count(spec_next_state(st, RecvOutcome::Event(e)), k);
}

/// An entry of a typed dict whose key is neither `type` nor that of an
/// earlier entry is what a lookup of its key finds.
proof fn lemma_typed_field(t: Seq<char>, rest: Seq<(Seq<char>, PyData)>, i: int)
    requires
        0 <= i < rest.len(),
        rest[i].0 != "type"@,
        forall|j: int| 0 <= j < i ==> #[trigger] rest[j].0 != rest[i].0,
    ensures
        data_field(typed(t, rest), rest[i].0) == Some(rest[i].1),
{
    let es = seq![("type"@, sd(t))] + rest;
    assert(es[i + 1] == rest[i]);
    assert forall|j: int| 0 <= j < i + 1 implies #[trigger] es[j].0 != rest[i].0 by {
        if j > 0 {
            assert(es[j] == rest[j - 1]);
        }
    }
    lemma_entries_field_at(es, rest[i].0, i + 1);
}

/// Every event dict holds each of the event's fields under the field's own
/// name: `from` and `to` of a phase, model, thinking-level or branch switch,
/// the branches of a fork or summary, the call of a tool, the sizes of the
/// queues, the tools added and removed, the resources counted, and the
/// outcome of a compaction.
pub proof fn law_event_fields_carry_their_values(e: HarnessEvent)
    ensures
        e matches HarnessEvent::PhaseChange { from, to } ==> data_field(spec_event_dict(e), "from"@)
            == Some(PyData::Str(spec_phase_str(from))) && data_field(spec_event_dict(e), "to"@)
            == Some(PyData::Str(spec_phase_str(to))),
        e matches HarnessEvent::ModelUpdate { from, to } ==> data_field(spec_event_dict(e), "from"@)
            == Some(PyData::Str(from@)) && data_field(spec_event_dict(e), "to"@) == Some(
            PyData::Str(to@),
        ),
        e matches HarnessEvent::ThinkingLevelUpdate { from, to } ==> data_field(
            spec_event_dict(e),
            "from"@,
        ) == Some(PyData::Str(from@)) && data_field(spec_event_dict(e), "to"@) == Some(
            PyData::Str(to@),
        ),
        e matches HarnessEvent::BranchSwitched { from, to } ==> data_field(spec_event_dict(e), "from"@)
            == Some(PyData::Str(from@)) && data_field(spec_event_dict(e), "to"@) == Some(
            PyData::Str(to@),
        ),
        e matches HarnessEvent::BranchForked { from, new_leaf, label } ==> data_field(
            spec_event_dict(e),
            "from"@,
        ) == Some(PyData::Str(from@)) && data_field(spec_event_dict(e), "new_leaf"@) == Some(
            PyData::Str(new_leaf@),
        ) && data_field(spec_event_dict(e), "label"@) == Some(opt_sd(label)),
        e matches HarnessEvent::BranchSummarized { leaf, summary } ==> data_field(
            spec_event_dict(e),
            "leaf"@,
        ) == Some(PyData::Str(leaf@)) && data_field(spec_event_dict(e), "summary"@) == Some(
            PyData::Str(summary@),
        ),
        e matches HarnessEvent::ToolCallStart { tool_use_id, tool_name, args } ==> data_field(
            spec_event_dict(e),
            "tool_use_id"@,
        ) == Some(PyData::Str(tool_use_id@)) && data_field(spec_event_dict(e), "tool_name"@) == Some(
            PyData::Str(tool_name@),
        ) && data_field(spec_event_dict(e), "args"@) == Some(args@),
        e matches HarnessEvent::ToolCallEnd { tool_use_id, tool_name, .. } ==> data_field(
            spec_event_dict(e),
            "tool_use_id"@,
        ) == Some(PyData::Str(tool_use_id@)) && data_field(spec_event_dict(e), "tool_name"@) == Some(
            PyData::Str(tool_name@),
        ),
        e matches HarnessEvent::QueueUpdate { steer_len, follow_up_len } ==> data_field(
            spec_event_dict(e),
            "steer_len"@,
        ) == Some(PyData::Int(steer_len as int)) && data_field(spec_event_dict(e), "follow_up_len"@)
            == Some(PyData::Int(follow_up_len as int)),
        e matches HarnessEvent::ToolsUpdate { added, removed } ==> data_field(
            spec_event_dict(e),
            "added"@,
        ) == Some(PyData::List(strings_data(added@))) && data_field(spec_event_dict(e), "removed"@)
            == Some(PyData::List(strings_data(removed@))),
        e matches HarnessEvent::ResourcesUpdate { skills, templates, .. } ==> data_field(
            spec_event_dict(e),
            "skills"@,
        ) == Some(PyData::Int(skills as int)) && data_field(spec_event_dict(e), "templates"@)
            == Some(PyData::Int(templates as int)),
        e matches HarnessEvent::CompactionEnd { stats, error } ==> data_field(
            spec_event_dict(e),
            "stats"@,
        ) == Some(opt_sd(stats)) && data_field(spec_event_dict(e), "error"@) == Some(opt_sd(error)),
{
    reveal_strlit("type");
    reveal_strlit("from");
    reveal_strlit("to");
    reveal_strlit("new_leaf");
    reveal_strlit("label");
    reveal_strlit("leaf");
    reveal_strlit("summary");
    reveal_strlit("tool_use_id");
    reveal_strlit("tool_name");
    reveal_strlit("args");
    reveal_strlit("steer_len");
    reveal_strlit("follow_up_len");
    reveal_strlit("added");
    reveal_strlit("removed");
    reveal_strlit("skills");
    reveal_strlit("templates");
    reveal_strlit("stats");
    reveal_strlit("error");
    match e {
        HarnessEvent::PhaseChange { from, to } => {
            let rest = seq![("from"@, sd(spec_phase_str(from))), ("to"@, sd(spec_phase_str(to)))];
            assert("from"@[0] != "type"@[0]);
            assert("to"@.len() != "type"@.len() && "to"@.len() != "from"@.len());
            lemma_typed_field("phase_change"@, rest, 0);
            lemma_typed_field("phase_change"@, rest, 1);
        },
        HarnessEvent::ModelUpdate { from, to } => {
            let rest = seq![("from"@, sd(from@)), ("to"@, sd(to@))];
            assert("from"@[0] != "type"@[0]);
            assert("to"@.len() != "type"@.len() && "to"@.len() != "from"@.len());
            lemma_typed_field("model_update"@, rest, 0);
            lemma_typed_field("model_update"@, rest, 1);
        },
        HarnessEvent::ThinkingLevelUpdate { from, to } => {
            let rest = seq![("from"@, sd(from@)), ("to"@, sd(to@))];
            assert("from"@[0] != "type"@[0]);
            assert("to"@.len() != "type"@.len() && "to"@.len() != "from"@.len());
            lemma_typed_field("thinking_level_update"@, rest, 0);
            lemma_typed_field("thinking_level_update"@, rest, 1);
        },
        HarnessEvent::BranchSwitched { from, to } => {
            let rest = seq![("from"@, sd(from@)), ("to"@, sd(to@))];
            assert("from"@[0] != "type"@[0]);
            assert("to"@.len() != "type"@.len() && "to"@.len() != "from"@.len());
            lemma_typed_field("branch_switched"@, rest, 0);
            lemma_typed_field("branch_switched"@, rest, 1);
        },
        HarnessEvent::BranchForked { from, new_leaf, label } => {
            let rest = seq![("from"@, sd(from@)), ("new_leaf"@, sd(new_leaf@)), ("label"@, opt_sd(label))];
            assert("from"@[0] != "type"@[0]);
            assert("label"@[0] != "from"@[0]);
            assert("new_leaf"@.len() != "type"@.len() && "label"@.len() != "type"@.len());
            assert("new_leaf"@.len() != "from"@.len() && "new_leaf"@.len() != "label"@.len());
            lemma_typed_field("branch_forked"@, rest, 0);
            lemma_typed_field("branch_forked"@, rest, 1);
            lemma_typed_field("branch_forked"@, rest, 2);
        },
        HarnessEvent::BranchSummarized { leaf, summary } => {
            let rest = seq![("leaf"@, sd(leaf@)), ("summary"@, sd(summary@))];
            assert("leaf"@[0] != "type"@[0]);
            assert("summary"@.len() != "type"@.len() && "summary"@.len() != "leaf"@.len());
            lemma_typed_field("branch_summarized"@, rest, 0);
            lemma_typed_field("branch_summarized"@, rest, 1);
        },
        HarnessEvent::ToolCallStart { tool_use_id, tool_name, args } => {
            let rest = seq![("tool_use_id"@, sd(tool_use_id@)), ("tool_name"@, sd(tool_name@)), ("args"@, args@)];
            assert("args"@[0] != "type"@[0]);
            assert("tool_use_id"@.len() != "type"@.len() && "tool_name"@.len() != "type"@.len());
            assert("tool_use_id"@.len() != "tool_name"@.len() && "args"@.len() != "tool_name"@.len());
            assert("args"@.len() != "tool_use_id"@.len());
            lemma_typed_field("harness_tool_call_start"@, rest, 0);
            lemma_typed_field("harness_tool_call_start"@, rest, 1);
            lemma_typed_field("harness_tool_call_start"@, rest, 2);
        },
        HarnessEvent::ToolCallEnd { tool_use_id, tool_name, details, is_error } => {
            let rest = seq![
                ("tool_use_id"@, sd(tool_use_id@)),
                ("tool_name"@, sd(tool_name@)),
                (
                    "result"@,
                    PyData::Dict(seq![("details"@, details@), ("is_error"@, PyData::Bool(is_error))]),
                ),
            ];
            assert("tool_use_id"@.len() != "type"@.len() && "tool_name"@.len() != "type"@.len());
            assert("tool_use_id"@.len() != "tool_name"@.len());
            lemma_typed_field("harness_tool_call_end"@, rest, 0);
            lemma_typed_field("harness_tool_call_end"@, rest, 1);
        },
        HarnessEvent::QueueUpdate { steer_len, follow_up_len } => {
            let rest = seq![
                ("steer_len"@, PyData::Int(steer_len as int)),
                ("follow_up_len"@, PyData::Int(follow_up_len as int)),
            ];
            assert("steer_len"@.len() != "type"@.len() && "follow_up_len"@.len() != "type"@.len());
            assert("steer_len"@.len() != "follow_up_len"@.len());
            lemma_typed_field("queue_update"@, rest, 0);
            lemma_typed_field("queue_update"@, rest, 1);
        },
        HarnessEvent::ToolsUpdate { added, removed } => {
            let rest = seq![
                ("added"@, PyData::List(strings_data(added@))),
                ("removed"@, PyData::List(strings_data(removed@))),
            ];
            assert("added"@.len() != "type"@.len() && "removed"@.len() != "type"@.len());
            assert("added"@.len() != "removed"@.len());
            lemma_typed_field("tools_update"@, rest, 0);
            lemma_typed_field("tools_update"@, rest, 1);
        },
        HarnessEvent::ResourcesUpdate { skills, templates, diagnostics } => {
            let rest = seq![
                ("skills"@, PyData::Int(skills as int)),
                ("templates"@, PyData::Int(templates as int)),
                ("diagnostics"@, PyData::List(strings_data(diagnostics@))),
            ];
            assert("skills"@.len() != "type"@.len() && "templates"@.len() != "type"@.len());
            assert("skills"@.len() != "templates"@.len());
            lemma_typed_field("resources_update"@, rest, 0);
            lemma_typed_field("resources_update"@, rest, 1);
        },
        HarnessEvent::CompactionEnd { stats, error } => {
            let rest = seq![("stats"@, opt_sd(stats)), ("error"@, opt_sd(error))];
            assert("stats"@.len() != "type"@.len() && "error"@.len() != "type"@.len());
            assert("stats"@[0] != "error"@[0]);
            lemma_typed_field("compaction_end"@, rest, 0);
            lemma_typed_field("compaction_end"@, rest, 1);
        },
        _ => {},
    }
}

/// Every harness event reaches Python as a dict whose first entry is its
/// `type` (an event of the agent loop keeps the form the loop gave it).
pub proof fn law_event_dicts_are_typed(e: HarnessEvent)
    requires
        !(e is Agent),
    ensures
        spec_event_dict(e) matches PyData::Dict(d) && d.len() > 0 && d[0].0 == "type"@ && d[0].1 is Str,
{
}

/// The last response is the text of the latest assistant message: a message
/// that is not an assistant reply leaves it as it was, and an assistant
/// reply becomes it.
pub proof fn law_last_response_is_latest_reply(ms: Seq<PyValue>, m: PyValue)
    ensures
        assistant_text(m) is None ==> spec_last_response(ms.push(m)) == spec_last_response(ms),
        assistant_text(m) matches Some(t) ==> spec_last_response(ms.push(m)) == t,
{
    assert(ms.push(m).drop_last() =~= ms);
}

} // verus!
