//! Human-in-the-loop channels: the fallback of an approval request, and the
//! request a human's answer is matched to.

use vstd::prelude::*;

use crate::content::DataBlock;
use crate::error::{err_view, PyErrorKind, SdkError};
use crate::text::{concat2, str_eq, string_from};
use crate::value::{dict_find, dict_lookup, key_index_from, PyValue};

verus! {

/// What Rust's `Debug` formatting writes for a string: the string between
/// double quotes, with quotes, backslashes and characters that are not
/// printable escaped.
pub uninterp spec fn debug_quoted(s: Seq<char>) -> Seq<char>;

/// Calls std's `Debug` formatting of a string, `format!("{:?}", s)`.
///
/// Claimed: the result is `debug_quoted(s)`, a function of `s` alone; what
/// the escaping does is left unsaid.
#[verifier::external_body]
fn debug_str(s: &str) -> (r: String)
    ensures
        r@ == debug_quoted(s@),
{
    format!("{:?}", s)
}

/// What an approval request answers when nobody answers in time.
#[derive(Debug, Clone, Copy, PartialEq, Eq)]
pub enum ApprovalDefault {
    Approve,
    Deny,
}

/// The message of the error for an unknown approval fallback, given its
/// debug-quoted text.
pub open spec fn approval_default_message(quoted: Seq<char>) -> Seq<char> {
    "default must be 'approve' or 'deny', got "@ + quoted
}

/// The error for an unknown approval fallback, from the fallback as `Debug`
/// renders it.
pub fn approval_default_error(quoted: &str) -> (e: SdkError)
    ensures
        e@ == err_view(PyErrorKind::ValueError, approval_default_message(quoted@)),
{
    SdkError::value_error(concat2("default must be 'approve' or 'deny', got ", quoted))
}

/// Reads the `default` argument of an approval channel: `approve` or `deny`,
/// compared exactly; anything else is a `ValueError`.
pub fn approval_default(default: &str) -> (r: Result<ApprovalDefault, SdkError>)
    ensures
        default@ == "approve"@ ==> r == Ok::<ApprovalDefault, SdkError>(ApprovalDefault::Approve),
        default@ == "deny"@ ==> r == Ok::<ApprovalDefault, SdkError>(ApprovalDefault::Deny),
        default@ != "approve"@ && default@ != "deny"@ ==> (r matches Err(e) && e@ == err_view(
            PyErrorKind::ValueError,
            approval_default_message(debug_quoted(default@)),
        )),
{
    proof {
        reveal_strlit("approve");
        reveal_strlit("deny");
        assert("approve"@[0] != "deny"@[0]);
    }
    if str_eq(default, "approve") {
        Ok(ApprovalDefault::Approve)
    } else if str_eq(default, "deny") {
        Ok(ApprovalDefault::Deny)
    } else {
        let quoted = debug_str(default);
        Err(approval_default_error(quoted.as_str()))
    }
}

/// Whether `r` is `e` with the value under `key` replaced by `v`, or, when
/// there is no such entry, with `(key, v)` added at the end.
pub open spec fn entry_set(
    e: Seq<(String, PyValue)>,
    key: Seq<char>,
    v: PyValue,
    r: Seq<(String, PyValue)>,
) -> bool {
    match key_index_from(e, key, 0) {
        Some(i) => r.len() == e.len() && r[i].0@ == key && r[i].1 == v && forall|j: int|
            0 <= j < e.len() && j != i ==> r[j] == e[j],
        None => r.len() == e.len() + 1 && r.drop_last() == e && r.last().0@ == key && r.last().1 == v,
    }
}

proof fn lemma_key_index_prefix(e: Seq<(String, PyValue)>, key: Seq<char>, i: int, r: Seq<(String, PyValue)>)
    requires
        0 <= i <= e.len(),
        key_index_from(e, key, i) is None,
        r.len() == e.len() + 1,
        forall|j: int| 0 <= j < e.len() ==> r[j] == e[j],
        r.last().0@ == key,
    ensures
        key_index_from(r, key, i) == Some(e.len() as int),
    decreases e.len() - i,
{
    if i < e.len() {
        lemma_key_index_prefix(e, key, i + 1, r);
    } else {
        assert(r[e.len() as int] == r.last());
    }
}

proof fn lemma_key_index_update(e: Seq<(String, PyValue)>, key: Seq<char>, i: int, k: int, r: Seq<(String, PyValue)>)
    requires
        0 <= i <= k,
        key_index_from(e, key, i) == Some(k),
        r.len() == e.len(),
        r[k].0@ == key,
        forall|j: int| 0 <= j < e.len() && j != k ==> r[j] == e[j],
    ensures
        key_index_from(r, key, i) == Some(k),
    decreases k - i,
{
    if i < k {
        lemma_key_index_update(e, key, i + 1, k, r);
    }
}

proof fn lemma_key_index_other_update(e: Seq<(String, PyValue)>, key: Seq<char>, other: Seq<char>, i: int, k: int, r: Seq<(String, PyValue)>)
    requires
        0 <= i,
        0 <= k < e.len(),
        other != key,
        e[k].0@ == key,
        r.len() == e.len(),
        r[k].0@ == key,
        forall|j: int| 0 <= j < e.len() && j != k ==> r[j] == e[j],
    ensures
        key_index_from(r, other, i) == key_index_from(e, other, i),
    decreases e.len() - i,
{
    if i < e.len() {
        lemma_key_index_other_update(e, key, other, i + 1, k, r);
    }
}

proof fn lemma_key_index_other_push(e: Seq<(String, PyValue)>, key: Seq<char>, other: Seq<char>, i: int, r: Seq<(String, PyValue)>)
    requires
        0 <= i,
        other != key,
        r.len() == e.len() + 1,
        forall|j: int| 0 <= j < e.len() ==> r[j] == e[j],
        r.last().0@ == key,
    ensures
        key_index_from(r, other, i) == key_index_from(e, other, i),
    decreases r.len() - i,
{
    if i < e.len() {
        lemma_key_index_other_push(e, key, other, i + 1, r);
    } else if i == e.len() {
        assert(r[i] == r.last());
        assert(key_index_from(r, other, i + 1) is None);
    }
}

/// An answer's details carry the pending request's id: after setting
/// `request_id`, looking it up gives the id, and every other key gives what
/// it gave before.
pub proof fn law_answer_carries_request_id(
    e: Seq<(String, PyValue)>,
    id: String,
    r: Seq<(String, PyValue)>,
    other: Seq<char>,
)
    requires
        entry_set(e, "request_id"@, PyValue::Str(id), r),
    ensures
        dict_lookup(r, "request_id"@) == Some(PyValue::Str(id)),
        other != "request_id"@ ==> dict_lookup(r, other) == dict_lookup(e, other),
{
    let key = "request_id"@;
    match key_index_from(e, key, 0) {
        Some(i) => {
            crate::value::lemma_key_index_from_bounds(e, key, 0);
            lemma_key_index_update(e, key, 0, i, r);
            if other != key {
                lemma_key_index_other_update(e, key, other, 0, i, r);
                crate::value::lemma_key_index_from_bounds(e, other, 0);
                crate::value::lemma_key_index_from_bounds(r, other, 0);
            }
        },
        None => {
            lemma_key_index_prefix(e, key, 0, r);
            if other != key {
                assert forall|j: int| 0 <= j < e.len() implies r[j] == e[j] by {
                    assert(r.drop_last()[j] == r[j]);
                }
                lemma_key_index_other_push(e, key, other, 0, r);
                crate::value::lemma_key_index_from_bounds(e, other, 0);
                crate::value::lemma_key_index_from_bounds(r, other, 0);
            }
        },
    }
}

/// Sets the value under `key` in a dict's entries.
pub fn set_entry(entries: &mut Vec<(String, PyValue)>, key: &str, v: PyValue)
    ensures
        entry_set(old(entries)@, key@, v, final(entries)@),
{
    match dict_find(entries, key) {
        Some(i) => {
            entries.set(i, (string_from(key), v));
        },
        None => {
            let ghost prev = entries@;
            entries.push((string_from(key), v));
            assert(entries@.drop_last() =~= prev);
        },
    }
}

/// The error of an answer given before any request was made.
pub open spec fn no_pending_message() -> Seq<char> {
    "no pending human request: the tool has not been called yet"@
}

/// The request a human channel waits on: the id of the tool call that made
/// the last request, once a request was made. Only one request can be
/// pending at a time; a later request takes the place of an earlier one.
#[derive(Debug, Clone, PartialEq, Eq)]
pub struct PendingRequest {
    pub id: Option<String>,
}

impl PendingRequest {
    /// A channel on which no request was made yet.
    pub fn new() -> (p: PendingRequest)
        ensures
            p.id is None,
    {
        PendingRequest { id: None }
    }

    /// Notes the request of the tool call `tool_use_id`.
    pub fn record(&mut self, tool_use_id: String)
        ensures
            final(self).id == Some(tool_use_id),
    {
        self.id = Some(tool_use_id);
    }

    /// The details an answer is sent with: those given, with `request_id` set
    /// to the pending request's id when they are a dict (other values are
    /// sent as given). Answering before any request is a `RuntimeError`.
    pub fn submission_details(&self, details: PyValue) -> (r: Result<PyValue, SdkError>)
        ensures
            match self.id {
                None => r matches Err(e) && e@ == err_view(
                    PyErrorKind::RuntimeError,
                    no_pending_message(),
                ),
                Some(id) => match details {
                    PyValue::Dict(e) => r matches Ok(PyValue::Dict(e2)) && entry_set(
                        e@,
                        "request_id"@,
                        PyValue::Str(id),
                        e2@,
                    ),
                    other => r == Ok::<PyValue, SdkError>(other),
                },
            },
    {
        match &self.id {
            None => Err(
                SdkError::runtime_error(
                    string_from("no pending human request: the tool has not been called yet"),
                ),
            ),
            Some(id) => match details {
                PyValue::Dict(e) => {
                    let mut e = e;
                    set_entry(&mut e, "request_id", PyValue::Str(id.clone()));
                    Ok(PyValue::Dict(e))
                },
                other => Ok(other),
            },
        }
    }
}

/// The content of an event a human's answer is sent as: one text block.
pub fn answer_content(content: &str) -> (r: Vec<DataBlock>)
    ensures
        r@.len() == 1,
        r@[0] matches DataBlock::Text { text, mime_type } && text@ == content@ && mime_type is None,
{
    let mut r: Vec<DataBlock> = Vec::new();
    r.push(DataBlock::Text { text: string_from(content), mime_type: None });
    r
}

} // verus!
