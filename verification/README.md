# core_agent

The core of a desktop agent that turns natural-language instructions into
plans of mouse, keyboard, window, file and system actions, and runs them in
simulation mode. The library is written in Verus. Its functions carry
contracts that the verifier proves, except a few small wrappers around std
(`String::push`, `str::to_lowercase`, and the system clock in
`src/logging.rs`), whose contracts are trusted.

- `src/actions.rs`: action types, simulated handlers and `dispatch`.
- `src/params.rs`: action parameters, a string map with distinct keys.
- `src/planner.rs`: the keyword planner (`create_plan`, `match_instruction`).
- `src/executor.rs`: step execution and its log lines.
- `src/orchestrator.rs`: handling an instruction end to end, as an ordered
  list of effects (log lines, step records, notifications) and a summary.
- `src/ipc.rs`: JSON-RPC method routing and the answers of each method.
- `src/text.rs`, `src/perception.rs`, `src/logging.rs`, `src/config.rs`,
  `src/error.rs`: text helpers, screenshots and Base64, timestamps,
  configuration and the shared error type.
- `app/`: the program around the library: the TCP JSON-RPC server (tokio),
  JSON (de)serialisation (serde), and structured logging to stderr.
  No vision-model client is part of the agent, so `agent.analyze_screen`
  captures the screen and then answers with an analysis error.
