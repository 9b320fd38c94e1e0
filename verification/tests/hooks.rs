use senza::error::PyErrorKind;
use senza::hook_outcome::{
    after_tool_call_from_outcome, before_compact_from_outcome, before_run_from_outcome,
    before_tool_call_from_outcome, next_turn_from_outcome, provider_error_directive,
    render_error, should_stop_from_outcome, transform_from_outcome, validator_verdict,
    CallbackOutcome, ErrorDirective, TemperatureChange,
};
use senza::error::SdkError;
use senza::hooks::{
    before_tool_call_on_failure, deny_failure, join_with_newlines,
    parse_after_tool_call_decision, parse_before_compact_decision, parse_before_tool_call_decision,
    compact_first_kept_text, compact_summary_value, AfterToolCallDecision, BeforeCompactDecision,
    BeforeToolCallDecision, HookFailure, SummaryCheck,
};
use senza::thinking::ThinkingLevel;
use senza::value::PyValue;

fn text(s: &str) -> PyValue {
    PyValue::Str(s.to_string())
}

fn dict(pairs: Vec<(&str, PyValue)>) -> PyValue {
    PyValue::Dict(pairs.into_iter().map(|(k, v)| (k.to_string(), v)).collect())
}

fn returned(v: PyValue) -> CallbackOutcome {
    CallbackOutcome::Returned(v)
}

#[test]
fn before_tool_call_strings() {
    assert_eq!(parse_before_tool_call_decision(text("allow")).unwrap(), BeforeToolCallDecision::Allow);
    match parse_before_tool_call_decision(text("deny")).unwrap() {
        BeforeToolCallDecision::Deny(f) => {
            assert_eq!(f.code, "denied");
            assert_eq!(f.message, "tool call denied by before_tool_call hook");
        }
        other => panic!("unexpected {other:?}"),
    }
    let e = parse_before_tool_call_decision(text("modify")).unwrap_err();
    assert_eq!(e.message, "action 'modify' requires a dict with 'args'");
    let e = parse_before_tool_call_decision(text("maybe")).unwrap_err();
    assert_eq!(e.kind, PyErrorKind::ValueError);
    assert_eq!(e.message, "unknown decision: maybe");
}

#[test]
fn before_tool_call_dicts() {
    let m = parse_before_tool_call_decision(dict(vec![
        ("action", text("modify")),
        ("args", dict(vec![("q", text("x"))])),
    ]))
    .unwrap();
    assert_eq!(m, BeforeToolCallDecision::Modify(dict(vec![("q", text("x"))])));

    let d = parse_before_tool_call_decision(dict(vec![
        ("action", text("deny")),
        ("result", dict(vec![("content", PyValue::List(vec![])), ("details", PyValue::Int(7))])),
    ]))
    .unwrap();
    assert_eq!(
        d,
        BeforeToolCallDecision::DenyWithResult {
            content: Some(PyValue::List(vec![])),
            details: PyValue::Int(7)
        }
    );

    let e = parse_before_tool_call_decision(dict(vec![("args", PyValue::NoneValue)])).unwrap_err();
    assert_eq!(e.message, "missing 'action'");
    let e = parse_before_tool_call_decision(dict(vec![("action", text("modify"))])).unwrap_err();
    assert_eq!(e.message, "missing 'args'");
    let e = parse_before_tool_call_decision(dict(vec![("action", text("deny"))])).unwrap_err();
    assert_eq!(e.message, "missing 'result'");
    let e = parse_before_tool_call_decision(dict(vec![("action", text("skip"))])).unwrap_err();
    assert_eq!(e.message, "unknown action: skip");
    let e = parse_before_tool_call_decision(PyValue::Int(1)).unwrap_err();
    assert_eq!(e.kind, PyErrorKind::TypeError);
}

#[test]
fn deny_failure_joins_texts() {
    let f = deny_failure(Some(vec!["a".into(), "b".into()]), PyValue::Int(1));
    assert_eq!(f.code, "denied");
    assert_eq!(f.message, "a\nb");
    assert_eq!(f.details, PyValue::Int(1));
    let f = deny_failure(Some(vec![]), PyValue::NoneValue);
    assert_eq!(f.message, "tool call denied by before_tool_call hook");
    let f = deny_failure(None, PyValue::NoneValue);
    assert_eq!(f.message, "tool call denied by before_tool_call hook");
    assert_eq!(join_with_newlines(&vec!["x".into()]), "x");
}

#[test]
fn before_tool_call_fails_closed_on_any_failure() {
    for o in [
        returned(PyValue::Int(3)),
        CallbackOutcome::Raised("RuntimeError: x".into()),
    ] {
        match before_tool_call_from_outcome(o) {
            BeforeToolCallDecision::Deny(f) => {
                assert_eq!(f.code, "hook_error");
                assert_eq!(f.message, "tool call denied: before_tool_call hook error");
            }
            other => panic!("unexpected {other:?}"),
        }
    }
    match before_tool_call_from_outcome(CallbackOutcome::JoinFailed("panic".into())) {
        BeforeToolCallDecision::Deny(f) => {
            assert_eq!(f.message, "tool call denied: before_tool_call hook join error")
        }
        other => panic!("unexpected {other:?}"),
    }
    assert_eq!(before_tool_call_from_outcome(returned(text("allow"))), BeforeToolCallDecision::Allow);
    assert!(matches!(
        before_tool_call_on_failure(HookFailure::CallbackError),
        BeforeToolCallDecision::Deny(_)
    ));
}

#[test]
fn after_tool_call_patch_and_fail_open() {
    let d = parse_after_tool_call_decision(dict(vec![
        ("action", text("patch")),
        ("content", PyValue::List(vec![])),
        ("terminate", PyValue::Bool(true)),
    ]))
    .unwrap();
    assert_eq!(
        d,
        AfterToolCallDecision::Replace {
            content: Some(PyValue::List(vec![])),
            details: PyValue::NoneValue,
            terminate: true
        }
    );
    let e = parse_after_tool_call_decision(text("patch")).unwrap_err();
    assert_eq!(e.message, "action 'patch' requires a dict");
    assert_eq!(
        after_tool_call_from_outcome(returned(text("nonsense"))),
        AfterToolCallDecision::Passthrough
    );
    assert_eq!(
        after_tool_call_from_outcome(CallbackOutcome::Raised("ValueError: v".into())),
        AfterToolCallDecision::Passthrough
    );
}

#[test]
fn before_compact_override_and_defaults() {
    let d = parse_before_compact_decision(
        dict(vec![
            ("action", text("override")),
            ("summary", dict(vec![("role", text("user"))])),
            ("first_kept_entry", text("e-1")),
        ]),
        1234,
        SummaryCheck::Readable,
        None,
    )
    .unwrap();
    assert_eq!(
        d,
        BeforeCompactDecision::Override {
            summary: dict(vec![("role", text("user"))]),
            first_kept_entry: "e-1".into(),
            tokens_before: 1234,
            tokens_after: 0
        }
    );
    let e = parse_before_compact_decision(
        dict(vec![("action", text("override")), ("summary", PyValue::NoneValue)]),
        0,
        SummaryCheck::Readable,
        None,
    )
    .unwrap_err();
    assert_eq!(e.message, "missing 'first_kept_entry' \u{2014} must be one of ctx['entry_ids']");
    let e = parse_before_compact_decision(
        dict(vec![
            ("action", text("override")),
            ("summary", PyValue::NoneValue),
            ("first_kept_entry", text("e")),
            ("tokens_after", PyValue::Int(-1)),
        ]),
        0,
        SummaryCheck::Readable,
        None,
    )
    .unwrap_err();
    assert_eq!(e.kind, PyErrorKind::OverflowError);
    assert_eq!(parse_before_compact_decision(text("skip"), 0, SummaryCheck::Readable, None).unwrap(), BeforeCompactDecision::Skip);
    assert_eq!(
        before_compact_from_outcome(CallbackOutcome::JoinFailed("x".into()), 5, SummaryCheck::Readable, None),
        BeforeCompactDecision::Proceed
    );
}

#[test]
fn should_stop_defaults_to_stopping() {
    assert!(!should_stop_from_outcome(&returned(PyValue::Bool(false))));
    assert!(should_stop_from_outcome(&returned(PyValue::Bool(true))));
    assert!(should_stop_from_outcome(&returned(PyValue::Int(0))));
    assert!(should_stop_from_outcome(&CallbackOutcome::Raised("ValueError: v".into())));
    assert!(should_stop_from_outcome(&CallbackOutcome::JoinFailed("j".into())));
}

#[test]
fn provider_error_retry_ignores_case() {
    assert_eq!(provider_error_directive(&returned(text("retry"))), ErrorDirective::Retry);
    assert_eq!(provider_error_directive(&returned(text("ReTrY"))), ErrorDirective::Retry);
    assert_eq!(provider_error_directive(&returned(text("surface"))), ErrorDirective::Surface);
    assert_eq!(provider_error_directive(&returned(PyValue::NoneValue)), ErrorDirective::Surface);
    assert_eq!(
        provider_error_directive(&CallbackOutcome::Raised("ValueError: v".into())),
        ErrorDirective::Surface
    );
}

#[test]
fn validator_verdicts() {
    assert!(validator_verdict(returned(PyValue::NoneValue)).is_ok());
    let r = validator_verdict(returned(text("too short"))).unwrap_err();
    assert_eq!((r.code.as_str(), r.message.as_str()), ("rejected", "too short"));
    let r = validator_verdict(returned(dict(vec![("code", text("c")), ("message", text("m"))])))
        .unwrap_err();
    assert_eq!((r.code.as_str(), r.message.as_str()), ("c", "m"));
    let r = validator_verdict(returned(dict(vec![("message", text("m"))]))).unwrap_err();
    assert_eq!(
        (r.code.as_str(), r.message.as_str()),
        ("validator_error", "validator dict must have 'code' key")
    );
    let r = validator_verdict(returned(dict(vec![("code", text("c"))]))).unwrap_err();
    assert_eq!(r.message, "validator dict must have 'message' key");
    let r = validator_verdict(returned(dict(vec![("code", PyValue::Int(1)), ("message", text("m"))])))
        .unwrap_err();
    assert_eq!(r.message, "TypeError: 'int' object is not an instance of 'str'");
    let r = validator_verdict(returned(PyValue::Int(1))).unwrap_err();
    assert_eq!(r.message, "'int' object is not an instance of 'dict'");
    let r = validator_verdict(CallbackOutcome::Raised("ValueError: bad".into())).unwrap_err();
    assert_eq!((r.code.as_str(), r.message.as_str()), ("validator_error", "ValueError: bad"));
}

#[test]
fn before_run_results() {
    let r = before_run_from_outcome(returned(PyValue::NoneValue)).unwrap();
    assert_eq!(r.additional_messages, None);
    assert_eq!(r.system_prompt, None);
    let r = before_run_from_outcome(returned(dict(vec![
        ("additional_messages", PyValue::List(vec![])),
        ("system_prompt", text("be brief")),
    ])))
    .unwrap();
    assert_eq!(r.additional_messages, Some(PyValue::List(vec![])));
    assert_eq!(r.system_prompt, Some("be brief".to_string()));
    let r = before_run_from_outcome(returned(dict(vec![("system_prompt", PyValue::Int(1))]))).unwrap();
    assert_eq!(r.system_prompt, None);
    let e = before_run_from_outcome(returned(text("x"))).unwrap_err();
    assert_eq!(e, "TypeError: 'str' object is not an instance of 'dict'");
    let e = before_run_from_outcome(CallbackOutcome::JoinFailed("gone".into())).unwrap_err();
    assert_eq!(e, "hook join failed: gone");
}

#[test]
fn transform_results() {
    let c = transform_from_outcome(returned(dict(vec![
        ("system_prompt", text("sp")),
        ("messages", PyValue::List(vec![])),
    ])))
    .unwrap();
    assert_eq!(c.system_prompt, Some("sp".to_string()));
    assert_eq!(c.messages, Some(PyValue::List(vec![])));
    let e = transform_from_outcome(returned(PyValue::NoneValue)).unwrap_err();
    assert_eq!(e, "TypeError: 'None' is not an instance of 'dict'");
    let e = transform_from_outcome(CallbackOutcome::Raised("KeyError: 'x'".into())).unwrap_err();
    assert_eq!(e, "KeyError: 'x'");
}

#[test]
fn next_turn_plans() {
    let p = next_turn_from_outcome(returned(PyValue::NoneValue)).unwrap();
    assert_eq!(p.model, None);
    assert_eq!(p.temperature, TemperatureChange::Keep);

    let p = next_turn_from_outcome(returned(dict(vec![
        ("model", text("gpt-x")),
        ("thinking_level", text("HIGH")),
        ("temperature", PyValue::NoneValue),
        ("active_tools", PyValue::Tuple(vec![text("a"), text("b")])),
    ])))
    .unwrap();
    assert_eq!(p.model, Some("gpt-x".to_string()));
    assert_eq!(p.thinking_level, Some(ThinkingLevel::High));
    assert_eq!(p.temperature, TemperatureChange::Clear);
    assert_eq!(p.active_tools, Some(vec!["a".to_string(), "b".to_string()]));

    let p = next_turn_from_outcome(returned(dict(vec![
        ("thinking_level", text("none")),
        ("temperature", PyValue::Int(1)),
        ("active_tools", PyValue::List(vec![text("a"), PyValue::Int(2)])),
    ])))
    .unwrap();
    assert_eq!(p.thinking_level, Some(ThinkingLevel::Off));
    assert_eq!(p.temperature, TemperatureChange::SetTo(PyValue::Int(1)));
    assert_eq!(p.active_tools, None);

    let p = next_turn_from_outcome(returned(dict(vec![("thinking_level", text("ultra"))]))).unwrap();
    assert_eq!(p.thinking_level, None);

    let e = next_turn_from_outcome(returned(dict(vec![("temperature", text("hot"))]))).unwrap_err();
    assert_eq!(e, "TypeError: temperature must be a float, got str");

    let huge = PyValue::BigInt { negative: true, float_overflows: true };
    let e = next_turn_from_outcome(returned(dict(vec![("temperature", huge)]))).unwrap_err();
    assert_eq!(e, "TypeError: temperature must be a float, got int");
    let large = || PyValue::BigInt { negative: false, float_overflows: false };
    let p = next_turn_from_outcome(returned(dict(vec![("temperature", large())]))).unwrap();
    assert_eq!(p.temperature, TemperatureChange::SetTo(large()));
}

#[test]
fn errors_render_like_python_exceptions() {
    let e = SdkError::value_error("bad".to_string());
    assert_eq!(render_error(&e), "ValueError: bad");
    let k = SdkError::new(PyErrorKind::KeyError, "missing".to_string());
    assert_eq!(render_error(&k), "KeyError: 'missing'");
}

#[test]
fn before_compact_reads_the_summary_before_the_other_fields() {
    let no_entry = dict(vec![("action", text("override")), ("summary", text("bad"))]);
    assert_eq!(compact_summary_value(&no_entry), Some(&text("bad")));
    assert_eq!(compact_first_kept_text(&no_entry), None);
    let e = parse_before_compact_decision(no_entry, 0, SummaryCheck::NotAMessage("expected a map".into()), None)
        .unwrap_err();
    assert_eq!(e.kind, PyErrorKind::ValueError);
    assert_eq!(e.message, "invalid summary: expected a map");
    let big = SdkError::new(PyErrorKind::OverflowError, "int too big to convert".into());
    let e = parse_before_compact_decision(
        dict(vec![("action", text("override")), ("summary", text("s"))]),
        0,
        SummaryCheck::Unconvertible(big.clone()),
        None,
    )
    .unwrap_err();
    assert_eq!(e, big);
    let bad_counts = dict(vec![
        ("action", text("override")),
        ("summary", text("s")),
        ("first_kept_entry", text("nope")),
        ("tokens_before", text("many")),
    ]);
    assert_eq!(compact_first_kept_text(&bad_counts), Some(&"nope".to_string()));
    let e = parse_before_compact_decision(bad_counts, 0, SummaryCheck::Readable, Some("not an id".into()))
        .unwrap_err();
    assert_eq!(e.message, "invalid first_kept_entry: not an id");
    assert_eq!(
        before_compact_from_outcome(
            CallbackOutcome::Returned(dict(vec![("action", text("override")), ("summary", text("s"))])),
            7,
            SummaryCheck::NotAMessage("x".into()),
            None,
        ),
        BeforeCompactDecision::Proceed
    );
    assert_eq!(compact_summary_value(&text("skip")), None);
}
