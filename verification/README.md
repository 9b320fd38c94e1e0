# senza

The verified core of the Senza Python SDK for the `llm-harness` agent runtime.

The SDK sits between Python code and the runtime: it reads what Python
callbacks return (tool results, hook decisions, validator verdicts), renders
the dicts Python callbacks receive (hook contexts, harness events, session
entries), checks the arguments of the factories and the builder, and decides
what happens when a callback fails. That logic is in `src/`, with contracts
that Verus proves.

- `src/value.rs`: the Python values the SDK reads, modelled as `PyValue`, and
  how Python extracts strings, integers and booleans from them.
- `src/content.rs`, `src/tool_result.rs`: attachments, content blocks, and
  what a tool callback's return value becomes.
- `src/hooks.rs`, `src/hook_outcome.rs`, `src/hook_ctx.rs`, `src/hook_kind.rs`:
  hook decisions, what each hook does when its callback fails, the context
  dicts hooks receive, and the hook kinds.
- `src/harness.rs`, `src/session.rs`: harness events, the event iterator and
  collector, the last response, and session reports.
- `src/thinking.rs`, `src/provider.rs`, `src/builder.rs`, `src/sandbox.rs`,
  `src/strategy.rs`, `src/human.rs`, `src/agent.rs`: argument parsing and
  configuration of the factories, the builder, sandboxes, human channels and
  the scripted test agent.

`app/` is the PyO3 module around the library: it converts Python objects,
calls the runtime, and hands plain values to the library and back.
