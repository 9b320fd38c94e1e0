use senza::agent::{agent_phase_str, mock_response_from_py, mock_script, AgentPhase, MockReply};
use senza::content::DataBlock;
use senza::error::PyErrorKind;
use senza::human::{answer_content, approval_default, set_entry, ApprovalDefault, PendingRequest};
use senza::session::{
    branch_dict, branch_summary_dict, compaction_stats_dict, inspector_allowed, needs_shutdown,
    session_entry_dict, BranchInfo, HarnessFlavor, SessionEntryInfo,
};
use senza::value::PyValue;

fn text(s: &str) -> PyValue {
    PyValue::Str(s.to_string())
}

fn dict(pairs: Vec<(&str, PyValue)>) -> PyValue {
    PyValue::Dict(pairs.into_iter().map(|(k, v)| (k.to_string(), v)).collect())
}

#[test]
fn mock_replies_from_dicts() {
    assert_eq!(
        mock_response_from_py(&dict(vec![("type", text("text")), ("text", text("hi"))])).unwrap(),
        MockReply::Text("hi".into())
    );
    assert_eq!(
        mock_response_from_py(&dict(vec![
            ("type", text("tool_use_end_turn")),
            ("id", text("1")),
            ("name", text("echo")),
            ("args", text("{}")),
        ]))
        .unwrap(),
        MockReply::ToolUseEndTurn { id: "1".into(), name: "echo".into(), args: "{}".into() }
    );
    let e = mock_response_from_py(&dict(vec![("text", text("hi"))])).unwrap_err();
    assert_eq!((e.kind, e.message.as_str()), (PyErrorKind::KeyError, "missing 'type' key"));
    let e = mock_response_from_py(&dict(vec![("type", text("tool_use")), ("id", text("1"))])).unwrap_err();
    assert_eq!(e.message, "missing 'name' key");
    let e = mock_response_from_py(&dict(vec![("type", text("image"))])).unwrap_err();
    assert_eq!((e.kind, e.message.as_str()), (PyErrorKind::ValueError, "unknown mock response type: image"));
    let e = mock_response_from_py(&PyValue::List(vec![])).unwrap_err();
    assert_eq!(e.kind, PyErrorKind::TypeError);
}

#[test]
fn mock_scripts() {
    let d = mock_script(None).unwrap();
    assert_eq!(d.len(), 4);
    assert!(d.iter().all(|m| *m == MockReply::Text("hello from mock".into())));
    let items = vec![
        dict(vec![("type", text("text")), ("text", text("a"))]),
        dict(vec![("type", text("bogus"))]),
        dict(vec![("nothing", PyValue::NoneValue)]),
    ];
    let e = mock_script(Some(&items)).unwrap_err();
    assert_eq!(e.message, "unknown mock response type: bogus");
    assert_eq!(agent_phase_str(AgentPhase::Running), "running");
    assert_eq!(agent_phase_str(AgentPhase::Idle), "idle");
}

#[test]
fn approval_defaults() {
    assert_eq!(approval_default("approve").unwrap(), ApprovalDefault::Approve);
    assert_eq!(approval_default("deny").unwrap(), ApprovalDefault::Deny);
    let e = approval_default("maybe").unwrap_err();
    assert_eq!((e.kind, e.message.as_str()), (PyErrorKind::ValueError, "default must be 'approve' or 'deny', got \"maybe\""));
    let e = approval_default("a\"b").unwrap_err();
    assert_eq!(e.message, "default must be 'approve' or 'deny', got \"a\\\"b\"");
}

#[test]
fn answers_carry_the_pending_request_id() {
    let mut p = PendingRequest::new();
    let e = p.submission_details(dict(vec![])).unwrap_err();
    assert_eq!(
        (e.kind, e.message.as_str()),
        (PyErrorKind::RuntimeError, "no pending human request: the tool has not been called yet")
    );
    p.record("toolu_1".into());
    let d = p
        .submission_details(dict(vec![("decision", text("approve")), ("request_id", text("spoofed"))]))
        .unwrap();
    assert_eq!(d, dict(vec![("decision", text("approve")), ("request_id", text("toolu_1"))]));
    let d = p.submission_details(dict(vec![("value", PyValue::Int(42))])).unwrap();
    assert_eq!(d, dict(vec![("value", PyValue::Int(42)), ("request_id", text("toolu_1"))]));
    assert_eq!(p.submission_details(text("plain")).unwrap(), text("plain"));
    p.record("toolu_2".into());
    let d = p.submission_details(dict(vec![])).unwrap();
    assert_eq!(d, dict(vec![("request_id", text("toolu_2"))]));
}

#[test]
fn setting_an_entry() {
    let mut e = vec![("a".to_string(), PyValue::Int(1))];
    set_entry(&mut e, "a", PyValue::Int(2));
    set_entry(&mut e, "b", PyValue::Int(3));
    assert_eq!(e, vec![("a".to_string(), PyValue::Int(2)), ("b".to_string(), PyValue::Int(3))]);
    assert_eq!(answer_content("yes"), vec![DataBlock::Text { text: "yes".into(), mime_type: None }]);
}

#[test]
fn session_dicts() {
    assert_eq!(
        compaction_stats_dict(100, 40, 3),
        dict(vec![
            ("tokens_before", PyValue::Int(100)),
            ("tokens_after", PyValue::Int(40)),
            ("compressed_entries", PyValue::Int(3)),
        ])
    );
    assert_eq!(
        branch_dict(BranchInfo {
            leaf_id: "l".into(),
            label: None,
            message_count: 2,
            last_activity: "2024-01-01T00:00:00+00:00".into(),
            summary: Some("s".into()),
        }),
        dict(vec![
            ("leaf_id", text("l")),
            ("label", PyValue::NoneValue),
            ("message_count", PyValue::Int(2)),
            ("last_activity", text("2024-01-01T00:00:00+00:00")),
            ("summary", text("s")),
        ])
    );
    assert_eq!(
        branch_summary_dict("l".into(), "f".into(), "sum".into(), 9),
        dict(vec![
            ("leaf_id", text("l")),
            ("from_entry", text("f")),
            ("summary", text("sum")),
            ("token_count", PyValue::Int(9)),
        ])
    );
    assert_eq!(
        session_entry_dict(SessionEntryInfo {
            id: "e2".into(),
            parent_id: Some("e1".into()),
            timestamp: "t".into(),
            payload: None,
        }),
        dict(vec![("id", text("e2")), ("parent_id", text("e1")), ("timestamp", text("t"))])
    );
    assert_eq!(
        session_entry_dict(SessionEntryInfo {
            id: "e1".into(),
            parent_id: None,
            timestamp: "t".into(),
            payload: Some(PyValue::Int(1)),
        }),
        dict(vec![
            ("id", text("e1")),
            ("parent_id", PyValue::NoneValue),
            ("timestamp", text("t")),
            ("payload", PyValue::Int(1)),
        ])
    );
}

#[test]
fn harness_flavor_operations() {
    assert!(inspector_allowed(HarnessFlavor::Base).is_ok());
    let e = inspector_allowed(HarnessFlavor::Mcp).unwrap_err();
    assert_eq!(e.message, "mount_inspector is not supported on MCP harnesses");
    assert!(needs_shutdown(HarnessFlavor::Mcp));
    assert!(!needs_shutdown(HarnessFlavor::Base));
}
