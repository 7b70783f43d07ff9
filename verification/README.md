# jarvis_ui

The logic of the JARVIS desktop client, verified with Verus.

- `src/` is the library. It holds the protocol with the daemon (`json`, `event`, `command`,
  `client`, `connection`, `paths`), the state of the application (`app_state`, `ui_event`,
  `settings`, `keyed`), its windows and tray (`shell`), and its widgets (`widgets`,
  `serving`). `text` holds what the others share.
- `app/` is the program around it: threads, sockets, files, and the windows of Tauri.
- `tests/` runs the library.

JSON text is read and written by `serde_json`, built with its default features; what the
proofs take on trust of it is stated at the wrappers in `src/json.rs`.
