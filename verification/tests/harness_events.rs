use senza::content::ContentBlock;
use senza::error::{PyErrorKind, SdkError};
use senza::harness::{
    default_knowledge_access, effective_access, harness_event_to_dict, harness_repr,
    last_response, next_event_step, phase_str, prompt_and_collect_result, stop_reason_to_str,
    user_message_content, EventCollector, EventIterState, HarnessEvent, HarnessPhase, IterStep,
    KnowledgeAccess, PromptRunOutcome, RecvOutcome, StopReason,
};
use senza::value::PyValue;

fn text(s: &str) -> PyValue {
    PyValue::Str(s.to_string())
}

fn dict(pairs: Vec<(&str, PyValue)>) -> PyValue {
    PyValue::Dict(pairs.into_iter().map(|(k, v)| (k.to_string(), v)).collect())
}

#[test]
fn phase_and_stop_reason_names() {
    assert_eq!(phase_str(HarnessPhase::Idle), "idle");
    assert_eq!(phase_str(HarnessPhase::Compacting), "compacting");
    assert_eq!(stop_reason_to_str(StopReason::EndTurn), "end_turn");
    assert_eq!(stop_reason_to_str(StopReason::ToolUse), "tool_use");
}

#[test]
fn event_dicts() {
    assert_eq!(
        harness_event_to_dict(HarnessEvent::PhaseChange { from: HarnessPhase::Idle, to: HarnessPhase::Turning }),
        dict(vec![("type", text("phase_change")), ("from", text("idle")), ("to", text("turning"))])
    );
    assert_eq!(
        harness_event_to_dict(HarnessEvent::CompactionStart { estimated_tokens: 77 }),
        dict(vec![("type", text("compaction_start")), ("estimated_tokens", PyValue::Int(77))])
    );
    assert_eq!(harness_event_to_dict(HarnessEvent::Settled), dict(vec![("type", text("settled"))]));
    assert_eq!(
        harness_event_to_dict(HarnessEvent::ToolsUpdate { added: vec!["a".into()], removed: vec![] }),
        dict(vec![
            ("type", text("tools_update")),
            ("added", PyValue::List(vec![text("a")])),
            ("removed", PyValue::List(vec![])),
        ])
    );
    assert_eq!(
        harness_event_to_dict(HarnessEvent::ActiveToolsUpdate { active: None }),
        dict(vec![("type", text("active_tools_update")), ("active", PyValue::NoneValue)])
    );
    let passthrough = dict(vec![("type", text("text_delta")), ("text", text("hi"))]);
    assert_eq!(
        harness_event_to_dict(HarnessEvent::Agent(dict(vec![("type", text("text_delta")), ("text", text("hi"))]))),
        passthrough
    );
    assert_eq!(
        harness_event_to_dict(HarnessEvent::ToolCallEnd {
            tool_use_id: "u".into(),
            tool_name: "t".into(),
            details: PyValue::NoneValue,
            is_error: true
        }),
        dict(vec![
            ("type", text("harness_tool_call_end")),
            ("tool_use_id", text("u")),
            ("tool_name", text("t")),
            ("result", dict(vec![("details", PyValue::NoneValue), ("is_error", PyValue::Bool(true))])),
        ])
    );
}

#[test]
fn iterator_yields_timeouts_and_goes_on() {
    let mut st = EventIterState { consecutive_timeouts: 0, max_consecutive_timeouts: 3 };
    for _ in 0..5 {
        assert_eq!(
            next_event_step(&mut st, RecvOutcome::TimedOut),
            IterStep::Yield(dict(vec![("type", text("timeout"))]))
        );
    }
    assert_eq!(st.consecutive_timeouts, 5);
}

#[test]
fn iterator_event_resets_and_lag_is_reported() {
    let mut st = EventIterState { consecutive_timeouts: 0, max_consecutive_timeouts: 2 };
    assert!(matches!(next_event_step(&mut st, RecvOutcome::TimedOut), IterStep::Yield(_)));
    assert!(matches!(next_event_step(&mut st, RecvOutcome::Event(HarnessEvent::Settled)), IterStep::Yield(_)));
    assert_eq!(st.consecutive_timeouts, 0);
    assert_eq!(
        next_event_step(&mut st, RecvOutcome::Lagged(5)),
        IterStep::Yield(dict(vec![("type", text("lagged")), ("skipped", PyValue::Int(5))]))
    );
    assert_eq!(next_event_step(&mut st, RecvOutcome::Closed), IterStep::Finish);
    let mut one = EventIterState { consecutive_timeouts: 0, max_consecutive_timeouts: 1 };
    assert_eq!(
        next_event_step(&mut one, RecvOutcome::TimedOut),
        IterStep::Yield(dict(vec![("type", text("timeout"))]))
    );
    assert_eq!(one.consecutive_timeouts, 1);
}

#[test]
fn collector_stops_at_terminal_event() {
    let mut c = EventCollector::new();
    c.on_event(HarnessEvent::SavePoint { entries_flushed: 1 });
    assert!(!c.finished);
    c.on_event(HarnessEvent::Aborted);
    assert!(c.finished && c.got_terminal);
    assert!(!c.must_abort_run());
    assert_eq!(c.events.len(), 2);
    let mut q = EventCollector::new();
    q.on_quiet();
    assert!(q.finished);
    assert!(q.must_abort_run());
}

#[test]
fn prompt_and_collect_outcomes() {
    let ev = vec![text("e")];
    assert_eq!(
        prompt_and_collect_result(ev, PromptRunOutcome::Completed { error_message: None }).unwrap(),
        vec![text("e")]
    );
    let e = prompt_and_collect_result(
        vec![],
        PromptRunOutcome::Completed { error_message: Some("rate limited".into()) },
    )
    .unwrap_err();
    assert_eq!((e.kind, e.message.as_str()), (PyErrorKind::RuntimeError, "rate limited"));
    assert_eq!(prompt_and_collect_result(vec![], PromptRunOutcome::Cancelled).unwrap(), vec![]);
    let f = prompt_and_collect_result(
        vec![],
        PromptRunOutcome::Failed(SdkError::value_error("x".into())),
    )
    .unwrap_err();
    assert_eq!(f.kind, PyErrorKind::ValueError);
}

fn assistant(texts: Vec<&str>) -> PyValue {
    dict(vec![
        ("role", text("assistant")),
        (
            "content",
            PyValue::List(
                texts
                    .into_iter()
                    .map(|t| dict(vec![("type", text("text")), ("text", text(t))]))
                    .collect(),
            ),
        ),
    ])
}

#[test]
fn last_response_is_latest_assistant_text() {
    let user = dict(vec![("role", text("user")), ("content", PyValue::List(vec![]))]);
    let msgs = vec![assistant(vec!["old"]), assistant(vec!["a", "b"]), user];
    assert_eq!(last_response(&msgs), "ab");
    assert_eq!(last_response(&vec![]), "");
    let with_tool = dict(vec![
        ("role", text("assistant")),
        (
            "content",
            PyValue::List(vec![
                dict(vec![("type", text("tool_use")), ("id", text("x"))]),
                dict(vec![("type", text("text")), ("text", text("done"))]),
            ]),
        ),
    ]);
    assert_eq!(last_response(&vec![with_tool]), "done");
}

#[test]
fn user_message_text_comes_first() {
    let att = ContentBlock::Text { text: "att".into() };
    let r = user_message_content("hello", vec![att.clone()]);
    assert_eq!(r, vec![ContentBlock::Text { text: "hello".into() }, att]);
}

#[test]
fn knowledge_access_defaults() {
    let d = default_knowledge_access();
    assert_eq!((d.scope.as_str(), d.principal.as_str(), d.kind.as_str()), ("senza", "python-sdk", "user"));
    let custom = KnowledgeAccess { scope: "s".into(), principal: "p".into(), kind: "service".into() };
    assert_eq!(effective_access(Some(custom.clone())), custom);
    assert_eq!(effective_access(None), d);
}

#[test]
fn harness_repr_form() {
    assert_eq!(harness_repr("gpt-4o", HarnessPhase::Idle), "AgentHarness(model=gpt-4o, phase=idle)");
}
