use senza::builder::{
    builder_repr, compaction_prompt_args, final_answer_mode, has_mcp, plan_build, BuildRoute,
    BuilderState, FinalAnswerMode,
};
use senza::error::PyErrorKind;
use senza::provider::{
    anthropic_settings, normalize_base_url, openai_settings, parse_thinking_scheme, ThinkingScheme,
};
use senza::sandbox::{dict_to_sandbox_config, str_items};
use senza::strategy::shielding_settings;
use senza::thinking::{parse_hook_thinking_level, parse_thinking_level, ThinkingLevel};
use senza::value::PyValue;

fn text(s: &str) -> PyValue {
    PyValue::Str(s.to_string())
}

fn entries(pairs: Vec<(&str, PyValue)>) -> Vec<(String, PyValue)> {
    pairs.into_iter().map(|(k, v)| (k.to_string(), v)).collect()
}

#[test]
fn base_url_strips_one_trailing_v1_without_chat_path() {
    assert_eq!(normalize_base_url("https://api.deepseek.com/v1", false), "https://api.deepseek.com");
    assert_eq!(normalize_base_url("https://api.deepseek.com/v1/", false), "https://api.deepseek.com");
    assert_eq!(normalize_base_url("http://localhost:8000///", false), "http://localhost:8000");
    assert_eq!(normalize_base_url("http://h/v1/v1", false), "http://h/v1");
    assert_eq!(normalize_base_url("http://h/v2", false), "http://h/v2");
    assert_eq!(normalize_base_url("https://x/v1/", true), "https://x/v1/");
}

#[test]
fn openai_settings_from_arguments() {
    let s = openai_settings(
        Some("https://x/v1".into()),
        None,
        Some("Reasoning_Effort".into()),
        true,
        false,
        false,
        true,
    )
    .unwrap();
    assert_eq!(s.base_url, Some("https://x".to_string()));
    assert_eq!(s.chat_path, None);
    assert_eq!(s.thinking_scheme, Some(ThinkingScheme::ReasoningEffort));
    assert!(s.documents && s.documents_inline);
    assert!(s.parse_reasoning_content && !s.tolerant_keepalive);

    let s = openai_settings(Some("".into()), Some("".into()), Some("".into()), true, true, false, false)
        .unwrap();
    assert_eq!((s.base_url, s.chat_path, s.thinking_scheme), (None, None, None));
    assert!(!s.documents);

    let s = openai_settings(Some("https://x/v1".into()), Some("/chat".into()), None, true, true, false, false)
        .unwrap();
    assert_eq!(s.base_url, Some("https://x/v1".to_string()));
    assert_eq!(s.chat_path, Some("/chat".to_string()));
}

#[test]
fn thinking_scheme_names() {
    assert_eq!(parse_thinking_scheme("NONE").unwrap(), ThinkingScheme::NoScheme);
    assert_eq!(parse_thinking_scheme("thinking_toggle").unwrap(), ThinkingScheme::ThinkingToggle);
    let e = parse_thinking_scheme("Turbo").unwrap_err();
    assert_eq!(e.kind, PyErrorKind::ValueError);
    assert_eq!(
        e.message,
        "unknown thinking_scheme 'turbo': expected 'none', 'reasoning_effort', or 'thinking_toggle'"
    );
}

#[test]
fn anthropic_settings_drop_empty_strings() {
    let s = anthropic_settings(Some("".into()), Some("/v1/messages".into()));
    assert_eq!(s.base_url, None);
    assert_eq!(s.messages_path, Some("/v1/messages".to_string()));
}

#[test]
fn thinking_levels() {
    assert_eq!(parse_thinking_level("HIGH").unwrap(), ThinkingLevel::High);
    assert_eq!(parse_thinking_level("Budget:2048").unwrap(), ThinkingLevel::Budget(2048));
    let e = parse_thinking_level("none").unwrap_err();
    assert_eq!(
        e.message,
        "invalid thinking level: 'none'. Use: off, minimal, low, medium, high, xhigh, or budget:<tokens>"
    );
    assert_eq!(parse_thinking_level("budget:").unwrap_err().message, "invalid budget value: cannot parse integer from empty string");
    assert_eq!(parse_thinking_level("budget:12a").unwrap_err().message, "invalid budget value: invalid digit found in string");
    assert_eq!(
        parse_thinking_level("budget:4294967296").unwrap_err().message,
        "invalid budget value: number too large to fit in target type"
    );
    assert_eq!(parse_thinking_level("budget:+5").unwrap(), ThinkingLevel::Budget(5));
    assert_eq!(parse_hook_thinking_level("None"), Some(ThinkingLevel::Off));
    assert_eq!(parse_hook_thinking_level("budget:5"), None);
}

#[test]
fn final_answer_modes() {
    assert_eq!(final_answer_mode("heuristic").unwrap(), FinalAnswerMode::Heuristic);
    assert_eq!(final_answer_mode("tool").unwrap(), FinalAnswerMode::RequiredTool);
    let e = final_answer_mode("Tool").unwrap_err();
    assert_eq!(e.message, "final_answer_mode must be 'heuristic' or 'tool', got 'Tool'");
}

#[test]
fn compaction_prompt_needs_both_parts() {
    assert_eq!(compaction_prompt_args(None, None).unwrap(), None);
    assert_eq!(
        compaction_prompt_args(Some("s".into()), Some("u".into())).unwrap(),
        Some(("s".to_string(), "u".to_string()))
    );
    let e = compaction_prompt_args(Some("s".into()), None).unwrap_err();
    assert_eq!(e.kind, PyErrorKind::RuntimeError);
    assert_eq!(
        e.message,
        "compaction_prompt: provide both system_prompt and user_template, or None for both"
    );
}

fn fresh() -> BuilderState {
    BuilderState {
        pending: true,
        mcp_servers: 0,
        mcp_config_files: 0,
        mcp_manager: false,
        spawn: false,
        session_repo: false,
        session_id: None,
    }
}

#[test]
fn builder_routes_and_repr() {
    let mut s = fresh();
    assert_eq!(builder_repr(&s), "HarnessBuilder(pending)");
    s.mcp_config_files = 1;
    assert!(has_mcp(&s));
    assert_eq!(builder_repr(&s), "HarnessBuilder(pending, mcp)");
    assert_eq!(plan_build(&mut s).unwrap(), BuildRoute::Mcp);
    assert_eq!(builder_repr(&s), "HarnessBuilder(consumed)");
    let e = plan_build(&mut s).unwrap_err();
    assert_eq!((e.kind, e.message.as_str()), (PyErrorKind::RuntimeError, "build() already consumed this builder"));

    let mut s = fresh();
    s.spawn = true;
    assert_eq!(plan_build(&mut s).unwrap(), BuildRoute::Base { wire_spawn: true });

    let mut s = fresh();
    s.session_repo = true;
    s.session_id = Some("abc".into());
    s.mcp_servers = 2;
    assert_eq!(
        plan_build(&mut s).unwrap(),
        BuildRoute::Session { open_id: Some("abc".into()), wire_spawn: false }
    );
}

#[test]
fn sandbox_config_defaults_and_values() {
    let c = dict_to_sandbox_config(None).unwrap();
    assert!(c.fs_allowlist.is_empty() && c.work_dir.is_none() && c.timeout_seconds.is_none());

    let e = entries(vec![
        ("fs_allowlist", PyValue::List(vec![text("/tmp"), text("/data")])),
        ("fs_denylist", PyValue::Tuple(vec![])),
        ("work_dir", text("/w")),
        ("max_memory_mb", PyValue::Int(512)),
        ("max_cpus", PyValue::NoneValue),
        ("timeout_seconds", PyValue::Float(0x4024000000000000)),
    ]);
    let c = dict_to_sandbox_config(Some(&e)).unwrap();
    assert_eq!(c.fs_allowlist, vec!["/tmp".to_string(), "/data".to_string()]);
    assert_eq!(c.work_dir, Some("/w".to_string()));
    assert_eq!(c.max_memory_mb, Some(512));
    assert_eq!(c.max_cpus, None);
    assert_eq!(c.timeout_seconds, Some(PyValue::Float(0x4024000000000000)));
}

#[test]
fn sandbox_config_errors() {
    let e = entries(vec![("fs_allowlist", PyValue::Int(3))]);
    assert_eq!(dict_to_sandbox_config(Some(&e)).unwrap_err().message, "'int' object is not iterable");
    let e = entries(vec![("fs_denylist", PyValue::List(vec![text("a"), PyValue::Int(1)]))]);
    assert_eq!(
        dict_to_sandbox_config(Some(&e)).unwrap_err().message,
        "'int' object is not an instance of 'str'"
    );
    let e = entries(vec![("max_disk_mb", PyValue::Int(-1))]);
    let err = dict_to_sandbox_config(Some(&e)).unwrap_err();
    assert_eq!(err.kind, PyErrorKind::OverflowError);
    let e = entries(vec![("timeout_seconds", text("10"))]);
    let err = dict_to_sandbox_config(Some(&e)).unwrap_err();
    assert_eq!((err.kind, err.message.as_str()), (PyErrorKind::TypeError, "must be real number, not str"));
    let huge = PyValue::BigInt { negative: false, float_overflows: true };
    let e = entries(vec![("timeout_seconds", huge)]);
    let err = dict_to_sandbox_config(Some(&e)).unwrap_err();
    assert_eq!(
        (err.kind, err.message.as_str()),
        (PyErrorKind::OverflowError, "int too large to convert to float")
    );
    let e = entries(vec![("timeout_seconds", PyValue::BigInt { negative: false, float_overflows: false })]);
    assert_eq!(
        dict_to_sandbox_config(Some(&e)).unwrap().timeout_seconds,
        Some(PyValue::BigInt { negative: false, float_overflows: false })
    );
    let e = entries(vec![("fs_allowlist", PyValue::Int(3)), ("max_cpus", text("x"))]);
    assert_eq!(dict_to_sandbox_config(Some(&e)).unwrap_err().message, "'int' object is not iterable");
}

#[test]
fn iterating_strings_dicts_and_sets() {
    assert_eq!(str_items(&text("ab")).unwrap(), vec!["a".to_string(), "b".to_string()]);
    let d = PyValue::Dict(vec![("k1".into(), PyValue::Int(1)), ("k2".into(), PyValue::NoneValue)]);
    assert_eq!(str_items(&d).unwrap(), vec!["k1".to_string(), "k2".to_string()]);
    assert_eq!(str_items(&PyValue::PySet(vec![text("x")])).unwrap(), vec!["x".to_string()]);
    assert_eq!(str_items(&PyValue::NoneValue).unwrap_err().message, "'NoneType' object is not iterable");
}

#[test]
fn shielding_settings_checks() {
    let s = shielding_settings(&PyValue::Int(3), &text("[hidden]")).unwrap();
    assert_eq!(s.retained_turns, Some(3));
    assert_eq!(s.placeholder, Some("[hidden]".to_string()));
    let s = shielding_settings(&PyValue::NoneValue, &PyValue::NoneValue).unwrap();
    assert_eq!((s.retained_turns, s.placeholder), (None, None));
    let e = shielding_settings(&PyValue::Int(-2), &PyValue::Int(1)).unwrap_err();
    assert_eq!((e.kind, e.message.as_str()), (PyErrorKind::ValueError, "retained_turns must be >= 0"));
    let e = shielding_settings(&PyValue::Int(1), &PyValue::Int(1)).unwrap_err();
    assert_eq!(e.kind, PyErrorKind::TypeError);
    let e = shielding_settings(&text("3"), &PyValue::NoneValue).unwrap_err();
    assert_eq!(e.message, "'str' object cannot be interpreted as an integer");
}
