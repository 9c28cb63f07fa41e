# replkit

A toolkit for interactive prompts (REPLs) in the terminal: a text buffer with
a cursor, word and line navigation, key bindings, completion, a differential
renderer, and the terminal control sequences they need. The library in `src/`
is verified with Verus; every public function states what it returns or
changes in its `requires` / `ensures`.

## Layout

- `src/document.rs`, `src/buffer.rs`, `src/scan.rs`, `src/unicode.rs`,
  `src/text.rs`: the text model. A `Document` is an immutable text with a
  cursor (words, lines, row/column translation); a `Buffer` is the editable
  input line (insert, delete, cursor motion, new line, join, swap).
- `src/error.rs`, `src/error/validation.rs`: buffer errors and the range,
  cursor and line checks that raise them.
- `src/key.rs`, `src/key_handler.rs`, `src/repl.rs`: keys, key actions and
  bindings, configuration validation, and what each key does to the buffer.
  A custom key action is bound by an id: the key handler and the engine
  hand that id back, the caller runs its own function on the buffer and
  passes the outcome to `finish_custom_action`.
- `src/sequence_matcher.rs`, `src/key_parser.rs`: the table of terminal key
  sequences and the byte-level parser (escape, CSI, mouse reports, cursor
  reports, bracketed paste) that turns raw input into key events.
- `src/console_keys.rs`: key events from the key records of a Windows
  console in legacy input mode.
- `src/renderer.rs`: draws the prompt and the input line, skipping a redraw
  when nothing changed, and wraps long lines.
- `src/engine.rs`: the decisions of the REPL loop (what a key, a resize or a
  shutdown does); reading events and running the user's code are the
  caller's.
- `src/console.rs`, `src/ansi.rs`, `src/vt.rs`, `src/mock.rs`,
  `src/wasm_bridge.rs`: the console output interface, ANSI/VT sequences and
  cursor-report parsing, a safe-text filter, a recording mock console, and a
  message-based console for a browser host.
- `src/suggestion.rs`, `src/completion.rs`, `src/prompt.rs`: completion
  candidates, completers, and a prompt built from a prefix and a completer.
- `src/laws.rs`: properties that relate several operations (round trips,
  idempotence, no redraw of unchanged content), proved once for all inputs.
- `app/`: what cannot be verified: raw-mode terminals (Unix through `libc`),
  the event thread, platform selection, logging, and the `ReplEngine` run
  loop that calls the user's executor.
- `tests/`: executable tests of the library.
