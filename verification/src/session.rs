//! What the harness reports about its session: compaction statistics,
//! branches, branch summaries and session entries, rendered as the dicts
//! Python sees; and which harness operations a kind of harness supports.

use vstd::prelude::*;

use crate::error::{err_view, PyErrorKind, SdkError};
use crate::harness::{opt_sd, sd};
use crate::hook_ctx::{empty_entries, int_d, int_value, opt_str};
use crate::text::string_from;
use crate::value::{entries_data, push_entry, PyData, PyValue};

verus! {

/// The dict of what a compaction did.
pub open spec fn spec_compaction_stats(tokens_before: u64, tokens_after: u64, compressed_entries: u64) -> PyData {
    PyData::Dict(
        seq![
            ("tokens_before"@, int_d(tokens_before as int)),
            ("tokens_after"@, int_d(tokens_after as int)),
            ("compressed_entries"@, int_d(compressed_entries as int)),
        ],
    )
}

/// Renders what a compaction did.
pub fn compaction_stats_dict(tokens_before: u64, tokens_after: u64, compressed_entries: u64) -> (r:
    PyValue)
    ensures
        r@ == spec_compaction_stats(tokens_before, tokens_after, compressed_entries),
{
    let mut e = empty_entries();
    push_entry(&mut e, "tokens_before", int_value(tokens_before));
    push_entry(&mut e, "tokens_after", int_value(tokens_after));
    push_entry(&mut e, "compressed_entries", int_value(compressed_entries));
    assert(entries_data(e@) =~= seq![
        ("tokens_before"@, int_d(tokens_before as int)),
        ("tokens_after"@, int_d(tokens_after as int)),
        ("compressed_entries"@, int_d(compressed_entries as int)),
    ]);
    PyValue::Dict(e)
}

/// A branch of the session tree: its leaf, label, size, last activity (as
/// RFC 3339 text) and summary.
#[derive(Debug, Clone, PartialEq, Eq)]
pub struct BranchInfo {
    pub leaf_id: String,
    pub label: Option<String>,
    pub message_count: u64,
    pub last_activity: String,
    pub summary: Option<String>,
}

/// The dict of a branch.
pub open spec fn spec_branch_dict(b: BranchInfo) -> PyData {
    PyData::Dict(
        seq![
            ("leaf_id"@, sd(b.leaf_id@)),
            ("label"@, opt_sd(b.label)),
            ("message_count"@, int_d(b.message_count as int)),
            ("last_activity"@, sd(b.last_activity@)),
            ("summary"@, opt_sd(b.summary)),
        ],
    )
}

/// Renders a branch.
pub fn branch_dict(b: BranchInfo) -> (r: PyValue)
    ensures
        r@ == spec_branch_dict(b),
{
    let ghost g = b;
    let BranchInfo { leaf_id, label, message_count, last_activity, summary } = b;
    let mut e = empty_entries();
    push_entry(&mut e, "leaf_id", PyValue::Str(leaf_id));
    push_entry(&mut e, "label", opt_str(label));
    push_entry(&mut e, "message_count", int_value(message_count));
    push_entry(&mut e, "last_activity", PyValue::Str(last_activity));
    push_entry(&mut e, "summary", opt_str(summary));
    assert(entries_data(e@) =~= seq![
        ("leaf_id"@, sd(g.leaf_id@)),
        ("label"@, opt_sd(g.label)),
        ("message_count"@, int_d(g.message_count as int)),
        ("last_activity"@, sd(g.last_activity@)),
        ("summary"@, opt_sd(g.summary)),
    ]);
    PyValue::Dict(e)
}

/// The dict of a branch summary.
pub open spec fn spec_branch_summary(
    leaf_id: String,
    from_entry: String,
    summary: String,
    token_count: u64,
) -> PyData {
    PyData::Dict(
        seq![
            ("leaf_id"@, sd(leaf_id@)),
            ("from_entry"@, sd(from_entry@)),
            ("summary"@, sd(summary@)),
            ("token_count"@, int_d(token_count as int)),
        ],
    )
}

/// Renders a branch summary.
pub fn branch_summary_dict(leaf_id: String, from_entry: String, summary: String, token_count: u64) -> (r:
    PyValue)
    ensures
        r@ == spec_branch_summary(leaf_id, from_entry, summary, token_count),
{
    let ghost (l, f, s) = (leaf_id, from_entry, summary);
    let mut e = empty_entries();
    push_entry(&mut e, "leaf_id", PyValue::Str(leaf_id));
    push_entry(&mut e, "from_entry", PyValue::Str(from_entry));
    push_entry(&mut e, "summary", PyValue::Str(summary));
    push_entry(&mut e, "token_count", int_value(token_count));
    assert(entries_data(e@) =~= seq![
        ("leaf_id"@, sd(l@)),
        ("from_entry"@, sd(f@)),
        ("summary"@, sd(s@)),
        ("token_count"@, int_d(token_count as int)),
    ]);
    PyValue::Dict(e)
}

/// An entry of the session log: its id, its parent's, its time (RFC 3339)
/// and its payload, when the payload could be rendered.
#[derive(Debug, PartialEq, Eq)]
pub struct SessionEntryInfo {
    pub id: String,
    pub parent_id: Option<String>,
    pub timestamp: String,
    pub payload: Option<PyValue>,
}

/// The dict of a session entry; `payload` is left out when it could not be
/// rendered.
pub open spec fn spec_session_entry(s: SessionEntryInfo) -> PyData {
    PyData::Dict(
        seq![
            ("id"@, sd(s.id@)),
            ("parent_id"@, opt_sd(s.parent_id)),
            ("timestamp"@, sd(s.timestamp@)),
        ] + match s.payload {
            Some(p) => seq![("payload"@, p@)],
            None => Seq::empty(),
        },
    )
}

/// Renders a session entry.
pub fn session_entry_dict(s: SessionEntryInfo) -> (r: PyValue)
    ensures
        r@ == spec_session_entry(s),
{
    let ghost g = s;
    let SessionEntryInfo { id, parent_id, timestamp, payload } = s;
    let mut e = empty_entries();
    push_entry(&mut e, "id", PyValue::Str(id));
    push_entry(&mut e, "parent_id", opt_str(parent_id));
    push_entry(&mut e, "timestamp", PyValue::Str(timestamp));
    match payload {
        Some(p) => {
            let ghost gp = p@;
            push_entry(&mut e, "payload", p);
            assert(entries_data(e@) =~= seq![
                ("id"@, sd(g.id@)),
                ("parent_id"@, opt_sd(g.parent_id)),
                ("timestamp"@, sd(g.timestamp@)),
            ] + seq![("payload"@, gp)]);
        },
        None => {
            assert(entries_data(e@) =~= seq![
                ("id"@, sd(g.id@)),
                ("parent_id"@, opt_sd(g.parent_id)),
                ("timestamp"@, sd(g.timestamp@)),
            ] + Seq::<(Seq<char>, PyData)>::empty());
        },
    }
    PyValue::Dict(e)
}

/// The kind of harness a Python handle holds.
#[derive(Debug, Clone, Copy, PartialEq, Eq)]
pub enum HarnessFlavor {
    /// A plain harness.
    Base,
    /// A harness with MCP servers.
    Mcp,
}

/// The error of mounting the inspector on an MCP harness.
pub open spec fn inspector_mcp_message() -> Seq<char> {
    "mount_inspector is not supported on MCP harnesses"@
}

/// Checks that the inspector can be mounted: on a plain harness only.
pub fn inspector_allowed(f: HarnessFlavor) -> (r: Result<(), SdkError>)
    ensures
        f == HarnessFlavor::Base ==> r is Ok,
        f == HarnessFlavor::Mcp ==> (r matches Err(e) && e@ == err_view(
            PyErrorKind::RuntimeError,
            inspector_mcp_message(),
        )),
{
    match f {
        HarnessFlavor::Base => Ok(()),
        HarnessFlavor::Mcp => Err(
            SdkError::runtime_error(string_from("mount_inspector is not supported on MCP harnesses")),
        ),
    }
}

/// Whether shutting the harness down has work to do: only an MCP harness
/// holds servers to stop.
pub fn needs_shutdown(f: HarnessFlavor) -> (r: bool)
    ensures
        r == (f == HarnessFlavor::Mcp),
{
    match f {
        HarnessFlavor::Base => false,
        HarnessFlavor::Mcp => true,
    }
}

} // verus!
