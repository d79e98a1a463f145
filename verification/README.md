# codexdd_adaptive

Adaptive-effort routing for codexdd Workers, written in Verus. The library
decides which model family and reasoning effort a bound Worker runs at, when a
failure may escalate it, which runtime signals carry authority at a turn's
terminal boundary, and when exactly one continuation turn may be submitted.
Each public function states its behaviour as a contract over mathematical
models, and the properties that span several calls are proved as lemmas.

## Layout

- `src/policy.rs`, `src/controller.rs`: the capability ladder and the pure
  controller reduction.
- `src/classification.rs`, `src/complexity.rs`, `src/budget.rs`: typed outcome
  adapters, complexity floors and budget-aware review routes.
- `src/evidence.rs`, `src/refs.rs`, `src/thread_text.rs`: typed native
  evidence, canonical evidence references, and thread ids as the wire spells
  them.
- `src/worker.rs`, `src/assignment.rs`, `src/lines.rs`, `src/text.rs`: Worker
  authority and the first-assignment header.
- `src/effort.rs`, `src/chat.rs`, `src/commands.rs`, `src/bridge.rs`,
  `src/transport.rs`, `src/trusted.rs`, `src/ingest.rs`, `src/admission.rs`:
  the per-thread adaptive lifecycle of the chat, which requests its effects
  (persisting state, switching routes, messages, submitting turns) as events.
- `src/session.rs`: fork inheritance, workspace roots and restored snapshots.
- `src/signal_handler.rs`: the `report_adaptive_signal` tool.
- `src/build_identity.rs`: the stamped product version.
- `app/`: the unverified shell: JSON and TOML parsing, the tool's JSON schema,
  floating-point budget measurement, and build-script stamping.
- `tests/`: scenarios on concrete values.
