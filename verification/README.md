# vncviewer

A small VNC viewer. The decision logic lives in the verified library under `src/`;
the window, the GPU painter, the credential store, the clipboard, the network task
and the Win32 calls live in `app/`, which hands the library plain values and acts
on what it returns.

- `src/text.rs` — whitespace trimming and digit filtering of the form's fields.
- `src/profile.rs` — a saved connection and the name it is listed under.
- `src/connect.rs` — the address book: loading, saving, picking, deleting, submitting.
- `src/session.rs` — a running session's reaction to server events, the full-screen
  toggle and the connection task's decisions.
- `src/input.rs` — keyboard and pointer translation.
- `src/textures.rs` — the painter's texture registry and buffer sizing.
- `src/win32.rs` — window styles, placements and re-posted key messages on Windows.
