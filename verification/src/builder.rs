//! The decisions of the harness builder: argument checks, its text form, and
//! which way `build()` goes.

use vstd::prelude::*;

use crate::error::{err_view, ErrorView, PyErrorKind, SdkError};
use crate::text::{concat3, str_eq, string_from};

verus! {

/// How the loop decides that an answer is final.
#[derive(Debug, Clone, Copy, PartialEq, Eq)]
pub enum FinalAnswerMode {
    /// The last assistant message without tool calls is the answer.
    Heuristic,
    /// The model must call the final-answer tool.
    RequiredTool,
}

/// The mode a `final_answer_mode` argument names, or the `ValueError` for
/// anything but `heuristic` and `tool` (compared exactly).
pub open spec fn spec_final_answer_mode(mode: Seq<char>) -> Result<FinalAnswerMode, ErrorView> {
    if mode == "heuristic"@ {
        Ok(FinalAnswerMode::Heuristic)
    } else if mode == "tool"@ {
        Ok(FinalAnswerMode::RequiredTool)
    } else {
        Err(
            err_view(
                PyErrorKind::ValueError,
                "final_answer_mode must be 'heuristic' or 'tool', got '"@ + mode + "'"@,
            ),
        )
    }
}

/// Reads a `final_answer_mode` argument.
pub fn final_answer_mode(mode: &str) -> (r: Result<FinalAnswerMode, SdkError>)
    ensures
        match r {
            Ok(m) => spec_final_answer_mode(mode@) == Ok::<FinalAnswerMode, ErrorView>(m),
            Err(e) => spec_final_answer_mode(mode@) == Err::<FinalAnswerMode, ErrorView>(e@),
        },
{
    if str_eq(mode, "heuristic") {
        Ok(FinalAnswerMode::Heuristic)
    } else if str_eq(mode, "tool") {
        Ok(FinalAnswerMode::RequiredTool)
    } else {
        Err(
            SdkError::value_error(
                concat3("final_answer_mode must be 'heuristic' or 'tool', got '", mode, "'"),
            ),
        )
    }
}

/// The message when only one of the two compaction prompt parts is given.
pub open spec fn compaction_prompt_pair_message() -> Seq<char> {
    "compaction_prompt: provide both system_prompt and user_template, or None for both"@
}

/// Checks the arguments of `compaction_prompt`: both parts or neither; one
/// part alone is a `RuntimeError`.
pub fn compaction_prompt_args(system_prompt: Option<String>, user_template: Option<String>) -> (r:
    Result<Option<(String, String)>, SdkError>)
    ensures
        match (system_prompt, user_template) {
            (None, None) => r == Ok::<Option<(String, String)>, SdkError>(None),
            (Some(sp), Some(ut)) => r == Ok::<Option<(String, String)>, SdkError>(Some((sp, ut))),
            _ => r matches Err(e) && e@ == err_view(
                PyErrorKind::RuntimeError,
                compaction_prompt_pair_message(),
            ),
        },
{
    match (system_prompt, user_template) {
        (None, None) => Ok(None),
        (Some(sp), Some(ut)) => Ok(Some((sp, ut))),
        _ => Err(
            SdkError::runtime_error(
                string_from(
                    "compaction_prompt: provide both system_prompt and user_template, or None for both",
                ),
            ),
        ),
    }
}

/// What the builder has collected that decides how it builds.
#[derive(Debug, Clone, PartialEq, Eq)]
pub struct BuilderState {
    /// The inner builder is still there (`build()` has not run).
    pub pending: bool,
    /// How many MCP servers were added.
    pub mcp_servers: usize,
    /// How many MCP config files were added.
    pub mcp_config_files: usize,
    /// Whether an MCP manager was given.
    pub mcp_manager: bool,
    /// Whether spawning sub-agents was enabled.
    pub spawn: bool,
    /// Whether a session repository was given.
    pub session_repo: bool,
    /// The session to reopen from it, if any.
    pub session_id: Option<String>,
}

/// Whether the builder has any MCP source.
pub open spec fn spec_has_mcp(s: BuilderState) -> bool {
    s.mcp_servers > 0 || s.mcp_config_files > 0 || s.mcp_manager
}

/// Whether the builder has any MCP source.
pub fn has_mcp(s: &BuilderState) -> (r: bool)
    ensures
        r == spec_has_mcp(*s),
{
    s.mcp_servers > 0 || s.mcp_config_files > 0 || s.mcp_manager
}

/// The text form of a builder: `HarnessBuilder(pending)`, with `, mcp` when
/// it has an MCP source, or `HarnessBuilder(consumed)` after `build()`.
pub open spec fn spec_builder_repr(s: BuilderState) -> Seq<char> {
    if s.pending {
        if spec_has_mcp(s) {
            "HarnessBuilder(pending, mcp)"@
        } else {
            "HarnessBuilder(pending)"@
        }
    } else {
        "HarnessBuilder(consumed)"@
    }
}

/// Renders a builder's text form.
pub fn builder_repr(s: &BuilderState) -> (r: String)
    ensures
        r@ == spec_builder_repr(*s),
{
    if s.pending {
        if has_mcp(s) {
            string_from("HarnessBuilder(pending, mcp)")
        } else {
            string_from("HarnessBuilder(pending)")
        }
    } else {
        string_from("HarnessBuilder(consumed)")
    }
}

/// The way `build()` goes.
#[derive(Debug, Clone, PartialEq, Eq)]
pub enum BuildRoute {
    /// Build on a session of the repository: the one with this id, or a new
    /// one; spawning is wired in when it was enabled.
    Session { open_id: Option<String>, wire_spawn: bool },
    /// Build an MCP harness from the MCP sources (spawning is not wired in).
    Mcp,
    /// Build a plain harness; spawning is wired in when it was enabled.
    Base { wire_spawn: bool },
}

/// The error of a second `build()`.
pub open spec fn consumed_message() -> Seq<char> {
    "build() already consumed this builder"@
}

/// The route of `build()`: a builder already built fails with a
/// `RuntimeError`; a session repository comes first, then MCP sources, else
/// the plain build.
pub open spec fn spec_build_route(s: BuilderState) -> Result<BuildRoute, ErrorView> {
    if !s.pending {
        Err(err_view(PyErrorKind::RuntimeError, consumed_message()))
    } else if s.session_repo {
        Ok(BuildRoute::Session { open_id: s.session_id, wire_spawn: s.spawn })
    } else if spec_has_mcp(s) {
        Ok(BuildRoute::Mcp)
    } else {
        Ok(BuildRoute::Base { wire_spawn: s.spawn })
    }
}

/// The state a builder is left in by `build()`: consumed, with its spawn
/// settings, session repository and session id taken; the MCP sources are
/// taken too when the MCP route was followed.
pub open spec fn spec_state_after_build(s: BuilderState) -> BuilderState {
    if !s.pending {
        s
    } else if !s.session_repo && spec_has_mcp(s) {
        BuilderState {
            pending: false,
            mcp_servers: 0,
            mcp_config_files: 0,
            mcp_manager: false,
            spawn: false,
            session_repo: false,
            session_id: None,
        }
    } else {
        BuilderState { pending: false, spawn: false, session_repo: false, session_id: None, ..s }
    }
}

/// Decides the route of `build()` and marks the builder as consumed.
pub fn plan_build(s: &mut BuilderState) -> (r: Result<BuildRoute, SdkError>)
    ensures
        match r {
            Ok(route) => spec_build_route(*old(s)) == Ok::<BuildRoute, ErrorView>(route),
            Err(e) => spec_build_route(*old(s)) == Err::<BuildRoute, ErrorView>(e@),
        },
        *final(s) == spec_state_after_build(*old(s)),
{
    if !s.pending {
        return Err(SdkError::runtime_error(string_from("build() already consumed this builder")));
    }
    let mcp = has_mcp(s);
    let spawn = s.spawn;
    let repo = s.session_repo;
    let id = s.session_id.take();
    s.pending = false;
    s.spawn = false;
    s.session_repo = false;
    if repo {
        Ok(BuildRoute::Session { open_id: id, wire_spawn: spawn })
    } else if mcp {
        s.mcp_servers = 0;
        s.mcp_config_files = 0;
        s.mcp_manager = false;
        Ok(BuildRoute::Mcp)
    } else {
        Ok(BuildRoute::Base { wire_spawn: spawn })
    }
}


/// `build()` consumes the builder: whatever state it was in, after one
/// `build()` a second one fails with a `RuntimeError`, and the builder shows
/// as consumed.
pub proof fn law_build_consumes(s: BuilderState)
    ensures
        spec_build_route(spec_state_after_build(s)) == Err::<BuildRoute, ErrorView>(
            err_view(PyErrorKind::RuntimeError, consumed_message()),
        ),
        spec_builder_repr(spec_state_after_build(s)) == "HarnessBuilder(consumed)"@,
{
}

/// A session repository decides the route over MCP sources: with one, a
/// pending builder builds on a session whatever MCP sources it has.
pub proof fn law_session_repo_first(s: BuilderState)
    requires
        s.pending,
        s.session_repo,
    ensures
        spec_build_route(s) matches Ok(BuildRoute::Session { open_id, wire_spawn }) && open_id
            == s.session_id && wire_spawn == s.spawn,
{
}

} // verus!
