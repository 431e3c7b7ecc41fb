# steve

The logic of Steve, a coding agent for the terminal, as a Verus library: what a
key, a command, an event of the conversation or a reply from the outside does to
the state of the application, and what is asked of the outside in return.

- `src/state.rs` holds the state, `src/effects.rs` what is asked of the outside.
- `src/events.rs`, `src/stream_events.rs`, `src/keys.rs`, `src/commands.rs`,
  `src/input.rs`, `src/sessions.rs`, `src/tasks.rs` and `src/sidebar.rs` say what
  happens to it; `src/laws.rs` holds what is true whatever happens.
- `src/export.rs` and `src/scenario.rs` turn a session into a scenario.
- `src/prompt.rs`, `src/tool_display.rs`, `src/titles.rs`, `src/notices.rs`,
  `src/providers.rs` and `src/blocks.rs` are the pieces these are made of.
- `src/text.rs`, `src/paths.rs`, `src/json.rs` and `src/doubles.rs` hold texts,
  paths, the arguments of tool calls and the rounding of large numbers.
- `tests/` runs the library, `app/` is the event loop around it.

Handlers take the state and push effects; the program in `app/` performs them in
order and calls back with what came of them. Three calls into other crates and
the standard library are believed rather than proved: writing a time (`chrono`),
base64, and quoting a text; so is appending a character to a `String`.
