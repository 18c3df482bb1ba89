# reqtui

A terminal HTTP client whose editing core is verified with Verus.

- `src/` — the verified library:
  - `text_buffer.rs`: a text buffer with a character (not byte) cursor; typing,
    backspace, cursor moves, drawing with the cursor, and the laws that relate them.
  - `chars.rs`: white space, blank text, single-character strings.
  - `body.rs`: the request body editor and its JSON check (through `serde_json`).
  - `headers.rs`: the request header editor.
  - `app_state.rs`: the application state, its plain-value view and the
    navigation and editing transitions.
  - `popup.rs`: what each editing popup shows.
  - `events.rs`: key handling for the event loop, and the laws of the whole state.
  - `layout.rs`: screen layout (through `ratatui`'s layout solver) and pane styles.
- `app/` — the program: terminal set-up, event loop, drawing with `ratatui`,
  and the HTTP requests with `reqwest`.
- `tests/` — tests of the library.
