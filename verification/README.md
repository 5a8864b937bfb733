# desktop_pet

The back end of a desktop pet whose behaviour an OpenAI-compatible chat model decides:
it picks animations, speaks, waits, sets reminders and chats, with a short-term and a
long-term memory.

`src/` is the verified library (Verus). Every request to the model is a state machine:
the library builds the conversation and the request shape, a driver performs the HTTP
exchange and hands the decoded outcome back, and the library decides what follows.

- `agent/` — the agent loop (budget, events, loop state machine)
- `decision.rs`, `decider.rs` — a single decision request and what is made of its answer
- `chat.rs` — chat with JSON answers, corrections with back-off, information tools
- `translate.rs` — translation requests
- `memory/` — short-term queue, long-term store, retrieval, digestion, the manager
- `tools.rs` — the tools the model may call
- `registry.rs` — sprite sheets measured from their PNG headers
- `llm.rs`, `exchange.rs` — configuration, prompts, sessions, replies
- `commands.rs` — what the front-end commands do besides talking to the model
- `text.rs`, `sort.rs`, `seqs.rs`, `clock.rs` — text helpers, orderings, the clock

Public `law_*` proof functions state properties that hold across calls.

`app/` holds the unverified rest: environment, HTTP with `reqwest`, JSON with `serde`,
files, the clipboard, and the command drivers. `tests/` runs the library on concrete values.
