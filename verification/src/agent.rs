//! The test agent: scripted replies read from Python dicts, and its phase.

use vstd::prelude::*;

use crate::error::{err_view, ErrorView, PyErrorKind, SdkError};
use crate::text::{concat2, concat3, str_eq, string_from};
use crate::value::{
    cast_error, dict_get, dict_lookup, extract_str, make_cast_error, spec_extract_str, PyValue,
};

verus! {

/// A scripted reply of the mock model.
#[derive(Debug, Clone, PartialEq, Eq)]
pub enum MockReply {
    /// A text answer.
    Text(String),
    /// A tool call; the model expects to continue after its result.
    ToolUse { id: String, name: String, args: String },
    /// A tool call that also ends the turn.
    ToolUseEndTurn { id: String, name: String, args: String },
}

/// The mathematical form of a [`MockReply`].
pub enum MockReplyView {
    Text(Seq<char>),
    ToolUse { id: Seq<char>, name: Seq<char>, args: Seq<char> },
    ToolUseEndTurn { id: Seq<char>, name: Seq<char>, args: Seq<char> },
}

impl View for MockReply {
    type V = MockReplyView;

    open spec fn view(&self) -> MockReplyView {
        match self {
            MockReply::Text(t) => MockReplyView::Text(t@),
            MockReply::ToolUse { id, name, args } => MockReplyView::ToolUse {
                id: id@,
                name: name@,
                args: args@,
            },
            MockReply::ToolUseEndTurn { id, name, args } => MockReplyView::ToolUseEndTurn {
                id: id@,
                name: name@,
                args: args@,
            },
        }
    }
}

/// The `str` stored under `key`: a `KeyError` (`missing '<key>' key`) when it
/// is absent, the extraction error when it is not a `str`.
pub open spec fn required_str(e: Seq<(String, PyValue)>, key: Seq<char>) -> Result<Seq<char>, ErrorView> {
    match dict_lookup(e, key) {
        None => Err(err_view(PyErrorKind::KeyError, "missing '"@ + key + "' key"@)),
        Some(v) => spec_extract_str(v),
    }
}

/// The tool-call fields `id`, `name` and `args`, read in that order.
pub open spec fn tool_use_fields(e: Seq<(String, PyValue)>) -> Result<
    (Seq<char>, Seq<char>, Seq<char>),
    ErrorView,
> {
    match required_str(e, "id"@) {
        Err(err) => Err(err),
        Ok(id) => match required_str(e, "name"@) {
            Err(err) => Err(err),
            Ok(name) => match required_str(e, "args"@) {
                Err(err) => Err(err),
                Ok(args) => Ok((id, name, args)),
            },
        },
    }
}

/// The reply a dict describes: `{"type": "text", "text": ...}`,
/// `{"type": "tool_use", "id", "name", "args"}` or the same with
/// `tool_use_end_turn`; a missing key is a `KeyError`, an unknown type a
/// `ValueError`, a value that is not a dict a `TypeError`.
pub open spec fn spec_mock_reply(v: PyValue) -> Result<MockReplyView, ErrorView> {
    match v {
        PyValue::Dict(e) => match required_str(e@, "type"@) {
            Err(err) => Err(err),
            Ok(t) => if t == "text"@ {
                match required_str(e@, "text"@) {
                    Err(err) => Err(err),
                    Ok(text) => Ok(MockReplyView::Text(text)),
                }
            } else if t == "tool_use"@ {
                match tool_use_fields(e@) {
                    Err(err) => Err(err),
                    Ok((id, name, args)) => Ok(MockReplyView::ToolUse { id, name, args }),
                }
            } else if t == "tool_use_end_turn"@ {
                match tool_use_fields(e@) {
                    Err(err) => Err(err),
                    Ok((id, name, args)) => Ok(MockReplyView::ToolUseEndTurn { id, name, args }),
                }
            } else {
                Err(err_view(PyErrorKind::ValueError, "unknown mock response type: "@ + t))
            },
        },
        _ => Err(cast_error(v, "dict"@)),
    }
}

/// The mathematical form of a reply-or-error result.
pub open spec fn mock_reply_result_view(r: Result<MockReply, SdkError>) -> Result<
    MockReplyView,
    ErrorView,
> {
    match r {
        Ok(m) => Ok(m@),
        Err(e) => Err(e@),
    }
}

fn read_required(e: &Vec<(String, PyValue)>, key: &str) -> (r: Result<String, SdkError>)
    ensures
        match r {
            Ok(s) => required_str(e@, key@) == Ok::<Seq<char>, ErrorView>(s@),
            Err(err) => required_str(e@, key@) == Err::<Seq<char>, ErrorView>(err@),
        },
{
    match dict_get(e, key) {
        None => Err(SdkError::new(PyErrorKind::KeyError, concat3("missing '", key, "' key"))),
        Some(v) => extract_str(v),
    }
}

fn read_tool_use(e: &Vec<(String, PyValue)>) -> (r: Result<(String, String, String), SdkError>)
    ensures
        match r {
            Ok((id, name, args)) => tool_use_fields(e@) == Ok::<
                (Seq<char>, Seq<char>, Seq<char>),
                ErrorView,
            >((id@, name@, args@)),
            Err(err) => tool_use_fields(e@) == Err::<(Seq<char>, Seq<char>, Seq<char>), ErrorView>(
                err@,
            ),
        },
{
    let id = match read_required(e, "id") {
        Ok(s) => s,
        Err(err) => return Err(err),
    };
    let name = match read_required(e, "name") {
        Ok(s) => s,
        Err(err) => return Err(err),
    };
    let args = match read_required(e, "args") {
        Ok(s) => s,
        Err(err) => return Err(err),
    };
    Ok((id, name, args))
}

/// Reads a scripted reply of the mock model from its dict.
pub fn mock_response_from_py(v: &PyValue) -> (r: Result<MockReply, SdkError>)
    ensures
        mock_reply_result_view(r) == spec_mock_reply(*v),
{
    let e = match v {
        PyValue::Dict(e) => e,
        _ => return Err(make_cast_error(v, "dict")),
    };
    let t = match read_required(e, "type") {
        Ok(t) => t,
        Err(err) => return Err(err),
    };
    if str_eq(t.as_str(), "text") {
        match read_required(e, "text") {
            Ok(text) => Ok(MockReply::Text(text)),
            Err(err) => Err(err),
        }
    } else if str_eq(t.as_str(), "tool_use") {
        match read_tool_use(e) {
            Ok((id, name, args)) => Ok(MockReply::ToolUse { id, name, args }),
            Err(err) => Err(err),
        }
    } else if str_eq(t.as_str(), "tool_use_end_turn") {
        match read_tool_use(e) {
            Ok((id, name, args)) => Ok(MockReply::ToolUseEndTurn { id, name, args }),
            Err(err) => Err(err),
        }
    } else {
        Err(SdkError::value_error(concat2("unknown mock response type: ", t.as_str())))
    }
}

/// The replies of a mock model given no script: four times
/// `hello from mock`.
pub open spec fn default_mock_replies() -> Seq<MockReplyView> {
    seq![
        MockReplyView::Text("hello from mock"@),
        MockReplyView::Text("hello from mock"@),
        MockReplyView::Text("hello from mock"@),
        MockReplyView::Text("hello from mock"@),
    ]
}

/// The mathematical form of a list of replies.
pub open spec fn replies_view(v: Seq<MockReply>) -> Seq<MockReplyView> {
    v.map_values(|m: MockReply| m@)
}

/// The script the given dicts describe, read in order: the first one that
/// cannot be read gives the error.
pub open spec fn spec_mock_script(items: Seq<PyValue>) -> Result<Seq<MockReplyView>, ErrorView>
    decreases items.len(),
{
    if items.len() == 0 {
        Ok(Seq::empty())
    } else {
        match spec_mock_script(items.drop_last()) {
            Err(e) => Err(e),
            Ok(prev) => match spec_mock_reply(items.last()) {
                Ok(m) => Ok(prev.push(m)),
                Err(e) => Err(e),
            },
        }
    }
}

/// Once a prefix of the dicts fails to read, the whole script fails with the
/// same error.
proof fn lemma_script_error_persists(items: Seq<PyValue>, k: int, e: ErrorView)
    requires
        0 <= k <= items.len(),
        spec_mock_script(items.take(k)) == Err::<Seq<MockReplyView>, ErrorView>(e),
    ensures
        spec_mock_script(items) == Err::<Seq<MockReplyView>, ErrorView>(e),
    decreases items.len() - k,
{
    if k < items.len() {
        assert(items.take(k + 1).drop_last() =~= items.take(k));
        lemma_script_error_persists(items, k + 1, e);
    } else {
        assert(items.take(k) =~= items);
    }
}

/// The script of a mock model: the replies read from the given dicts, or the
/// default script when none is given.
pub fn mock_script(responses: Option<&Vec<PyValue>>) -> (r: Result<Vec<MockReply>, SdkError>)
    ensures
        match responses {
            None => r matches Ok(v) && replies_view(v@) == default_mock_replies(),
            Some(items) => match r {
                Ok(v) => spec_mock_script(items@) == Ok::<Seq<MockReplyView>, ErrorView>(
                    replies_view(v@),
                ),
                Err(err) => spec_mock_script(items@) == Err::<Seq<MockReplyView>, ErrorView>(err@),
            },
        },
{
    match responses {
        None => {
            let mut v: Vec<MockReply> = Vec::new();
            v.push(MockReply::Text(string_from("hello from mock")));
            v.push(MockReply::Text(string_from("hello from mock")));
            v.push(MockReply::Text(string_from("hello from mock")));
            v.push(MockReply::Text(string_from("hello from mock")));
            assert(replies_view(v@) =~= default_mock_replies());
            Ok(v)
        },
        Some(items) => {
            let mut v: Vec<MockReply> = Vec::new();
            let mut i: usize = 0;
            assert(items@.take(0) =~= Seq::<PyValue>::empty());
            assert(replies_view(v@) =~= Seq::<MockReplyView>::empty());
            while i < items.len()
                invariant
                    responses == Some(items),
                    i <= items.len(),
                    spec_mock_script(items@.take(i as int)) == Ok::<Seq<MockReplyView>, ErrorView>(
                        replies_view(v@),
                    ),
                decreases items.len() - i,
            {
                assert(items@.take(i + 1).drop_last() =~= items@.take(i as int));
                assert(items@.take(i + 1).last() == items@[i as int]);
                match mock_response_from_py(&items[i]) {
                    Ok(m) => {
                        let ghost prev = v@;
                        v.push(m);
                        assert(replies_view(v@) =~= replies_view(prev).push(m@));
                    },
                    Err(err) => {
                        proof {
                            lemma_script_error_persists(items@, i + 1, err@);
                        }
                        return Err(err);
                    },
                }
                i += 1;
            }
            assert(items@.take(i as int) =~= items@);
            Ok(v)
        },
    }
}

/// The phase of an agent.
#[derive(Debug, Clone, Copy, PartialEq, Eq)]
pub enum AgentPhase {
    Idle,
    Running,
}

/// The name Python sees for an agent phase.
pub open spec fn spec_agent_phase_str(p: AgentPhase) -> Seq<char> {
    match p {
        AgentPhase::Idle => "idle"@,
        AgentPhase::Running => "running"@,
    }
}

/// Names an agent phase.
pub fn agent_phase_str(p: AgentPhase) -> (r: &'static str)
    ensures
        r@ == spec_agent_phase_str(p),
{
    match p {
        AgentPhase::Idle => "idle",
        AgentPhase::Running => "running",
    }
}

} // verus!
