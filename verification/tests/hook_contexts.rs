use senza::harness::StopReason;
use senza::hook_ctx::{
    after_response_ctx, after_tool_call_ctx, after_turn_ctx, agent_context_to_dict,
    before_compact_ctx, before_request_ctx, before_run_ctx, before_tool_call_ctx, before_turn_ctx,
    prepare_next_turn_ctx, provider_error_ctx, should_stop_ctx, tool_result_to_dict, transform_ctx,
    validator_ctx, CompactionInfo, ProviderErrorInfo, RequestOptions, ResponseInfo, TokenUsage,
    ToolCallInfo, ToolOutput,
};
use senza::hook_kind::{
    as_after_turn_hook, as_provider_error_hook, as_should_stop_hook, group_hooks, HookKind,
};
use senza::value::PyValue;

fn text(s: &str) -> PyValue {
    PyValue::Str(s.to_string())
}

fn dict(pairs: Vec<(&str, PyValue)>) -> PyValue {
    PyValue::Dict(pairs.into_iter().map(|(k, v)| (k.to_string(), v)).collect())
}

fn keys(v: &PyValue) -> Vec<String> {
    match v {
        PyValue::Dict(e) => e.iter().map(|(k, _)| k.clone()).collect(),
        _ => panic!("not a dict"),
    }
}

#[test]
fn before_turn_context() {
    let d = before_turn_ctx(2, "m".into(), None, "r1".into(), "t0".into());
    assert_eq!(
        d,
        dict(vec![
            ("turn_index", PyValue::Int(2)),
            ("model", text("m")),
            ("system_prompt", PyValue::NoneValue),
            ("run_id", text("r1")),
            ("started_at", text("t0")),
        ])
    );
}

#[test]
fn after_turn_and_before_run_contexts() {
    let d = after_turn_ctx(1, PyValue::List(vec![]), "r".into(), "t".into());
    assert_eq!(keys(&d), vec!["turn_index", "new_messages", "run_id", "started_at"]);
    let d = before_run_ctx("hi".into(), PyValue::List(vec![]), Some("sp".into()), "r".into(), "t".into());
    assert_eq!(
        d,
        dict(vec![
            ("prompt_text", text("hi")),
            ("initial_messages", PyValue::List(vec![])),
            ("system_prompt", text("sp")),
            ("run_id", text("r")),
            ("started_at", text("t")),
        ])
    );
}

#[test]
fn after_response_context_renders_headers_and_usage() {
    let info = ResponseInfo {
        status_code: Some(200),
        response_headers: vec![("x-a".into(), "1".into())],
        usage: Some(TokenUsage {
            input_tokens: 10,
            output_tokens: 5,
            cache_read_tokens: 0,
            cache_creation_tokens: 0,
            reasoning_tokens: 1,
        }),
        latency_ms: 42,
        model: None,
        provider: Some("openai".into()),
    };
    let d = after_response_ctx(info, "r".into(), "t".into(), 3);
    assert_eq!(
        d,
        dict(vec![
            ("status_code", PyValue::Int(200)),
            ("response_headers", PyValue::List(vec![PyValue::List(vec![text("x-a"), text("1")])])),
            (
                "usage",
                dict(vec![
                    ("input_tokens", PyValue::Int(10)),
                    ("output_tokens", PyValue::Int(5)),
                    ("cache_read_tokens", PyValue::Int(0)),
                    ("cache_creation_tokens", PyValue::Int(0)),
                    ("reasoning_tokens", PyValue::Int(1)),
                ])
            ),
            ("latency_ms", PyValue::Int(42)),
            ("model", PyValue::NoneValue),
            ("provider", text("openai")),
            ("run_id", text("r")),
            ("started_at", text("t")),
            ("turn_index", PyValue::Int(3)),
        ])
    );
}

#[test]
fn before_request_context() {
    let opts = RequestOptions {
        timeout_ms: None,
        max_retries: Some(2),
        max_retry_delay_ms: None,
        headers: vec![],
        metadata: dict(vec![]),
        cache_config: None,
    };
    let d = before_request_ctx(opts, "r".into(), "t".into(), 0);
    assert_eq!(
        keys(&d),
        vec![
            "timeout_ms",
            "max_retries",
            "max_retry_delay_ms",
            "headers",
            "metadata",
            "cache_config",
            "run_id",
            "started_at",
            "turn_index"
        ]
    );
    match d {
        PyValue::Dict(e) => {
            assert_eq!(e[1].1, PyValue::Int(2));
            assert_eq!(e[5].1, PyValue::NoneValue);
        }
        _ => unreachable!(),
    }
}

fn call() -> ToolCallInfo {
    ToolCallInfo {
        tool_use_id: "u1".into(),
        tool_name: "echo".into(),
        args: dict(vec![("x", PyValue::Int(1))]),
        turn_index: 4,
        assistant_message: PyValue::NoneValue,
    }
}

#[test]
fn tool_call_contexts() {
    let d = before_tool_call_ctx(call(), "r".into(), "t".into());
    assert_eq!(
        keys(&d),
        vec!["tool_use_id", "tool_name", "args", "turn_index", "assistant_message", "run_id", "started_at"]
    );
    let ok = ToolOutput { content: vec![], details: PyValue::NoneValue, terminate: true };
    let d = after_tool_call_ctx(call(), Ok(ok), "r".into(), "t".into());
    match &d {
        PyValue::Dict(e) => {
            assert_eq!(e[5], ("result_ok".to_string(), PyValue::Bool(true)));
            assert_eq!(
                e[6].1,
                dict(vec![
                    ("content", PyValue::List(vec![])),
                    ("details", PyValue::NoneValue),
                    ("terminate", PyValue::Bool(true)),
                ])
            );
        }
        _ => unreachable!(),
    }
    let d = after_tool_call_ctx(call(), Err("boom".into()), "r".into(), "t".into());
    match &d {
        PyValue::Dict(e) => {
            assert_eq!(e[5].1, PyValue::Bool(false));
            assert_eq!(e[6].1, text("boom"));
        }
        _ => unreachable!(),
    }
}

#[test]
fn should_stop_and_compact_contexts() {
    let d = should_stop_ctx(1, StopReason::MaxTokens, PyValue::NoneValue, "r".into(), "t".into());
    match &d {
        PyValue::Dict(e) => assert_eq!(e[1].1, text("max_tokens")),
        _ => unreachable!(),
    }
    let d = before_compact_ctx(CompactionInfo {
        estimated_tokens: 900,
        messages: PyValue::List(vec![]),
        entry_ids: vec!["a".into(), "b".into()],
        context_window: 1000,
        reserve_tokens: 100,
        keep_recent_tokens: 50,
    });
    assert_eq!(
        d,
        dict(vec![
            ("estimated_tokens", PyValue::Int(900)),
            ("messages", PyValue::List(vec![])),
            ("entry_ids", PyValue::List(vec![text("a"), text("b")])),
            ("context_window", PyValue::Int(1000)),
            ("reserve_tokens", PyValue::Int(100)),
            ("keep_recent_tokens", PyValue::Int(50)),
        ])
    );
}

#[test]
fn transform_validator_and_provider_error_contexts() {
    let d = transform_ctx(None, PyValue::List(vec![]), "r".into(), "t".into());
    assert_eq!(keys(&d), vec!["system_prompt", "messages", "run_id", "started_at"]);
    let d = validator_ctx(text("answer"), 2, "r".into(), "t".into());
    assert_eq!(keys(&d), vec!["candidate", "turn_index", "run_id", "started_at"]);
    let d = provider_error_ctx(
        "r".into(),
        "t".into(),
        ProviderErrorInfo {
            turn_index: 0,
            error: "429".into(),
            system_prompt: Some("sp".into()),
            messages: PyValue::List(vec![]),
            new_messages: PyValue::List(vec![]),
        },
    );
    assert_eq!(
        d,
        dict(vec![
            ("run_id", text("r")),
            ("started_at", text("t")),
            ("turn_index", PyValue::Int(0)),
            ("error", text("429")),
            ("context", dict(vec![("system_prompt", text("sp")), ("messages", PyValue::List(vec![]))])),
            ("new_messages", PyValue::List(vec![])),
        ])
    );
    assert_eq!(
        agent_context_to_dict(None, PyValue::List(vec![])),
        dict(vec![("system_prompt", PyValue::NoneValue), ("messages", PyValue::List(vec![]))])
    );
}

#[test]
fn prepare_next_turn_context_lists_tool_outcomes() {
    let d = prepare_next_turn_ctx(
        5,
        PyValue::NoneValue,
        vec![
            ("a".into(), Ok(ToolOutput { content: vec![text("x")], details: PyValue::NoneValue, terminate: false })),
            ("b".into(), Err("failed".into())),
        ],
        "r".into(),
        "t".into(),
    );
    match &d {
        PyValue::Dict(e) => {
            assert_eq!(
                e[2].1,
                PyValue::List(vec![
                    dict(vec![
                        ("tool_use_id", text("a")),
                        (
                            "result",
                            tool_result_to_dict(ToolOutput {
                                content: vec![text("x")],
                                details: PyValue::NoneValue,
                                terminate: false
                            })
                        ),
                    ]),
                    dict(vec![("tool_use_id", text("b")), ("error", text("failed"))]),
                ])
            );
        }
        _ => unreachable!(),
    }
}

#[test]
fn hook_kind_checks() {
    assert!(as_should_stop_hook(HookKind::ShouldStop).is_ok());
    let e = as_should_stop_hook(HookKind::BeforeTurn).unwrap_err();
    assert_eq!(e.message, "expected a ShouldStop hook, got BeforeTurn");
    let e = as_after_turn_hook(HookKind::OnAbort).unwrap_err();
    assert_eq!(e.message, "expected an AfterTurn hook, got OnAbort");
    let e = as_provider_error_hook(HookKind::FinalAnswerValidator).unwrap_err();
    assert_eq!(e.message, "expected a ProviderError hook, got FinalAnswerValidator");
    assert_eq!(HookKind::PrepareNextTurn.kind_name(), "PrepareNextTurn");
}

#[test]
fn hooks_group_by_kind_in_order() {
    let g = group_hooks(vec![
        (HookKind::AfterTurn, 1),
        (HookKind::BeforeTurn, 2),
        (HookKind::AfterTurn, 3),
        (HookKind::ProviderError, 4),
    ]);
    assert_eq!(g.after_turn, vec![1, 3]);
    assert_eq!(g.before_turn, vec![2]);
    assert_eq!(g.provider_error, vec![4]);
    assert!(g.should_stop.is_empty());
    let total = g.before_turn.len() + g.after_turn.len() + g.provider_error.len();
    assert_eq!(total, 4);
}
