# cmux-linux

The core of cmux for Linux — a GTK4 terminal multiplexer with workspaces,
split panes, a JSON-RPC control socket and a command-line client — written
in Verus, with every function's behaviour stated in its contract and proved.

Layout:

- `src/` — the verified library:
  - `split_engine` — the pane layout tree of a workspace: split, close,
    directional focus, snapshots; laws such as "closing a pane just created
    by a split restores the layout".
  - `app_state` — the ordered workspaces, the visible one, and the view work
    each change queues; session snapshot and restore.
  - `shortcuts`, `sidebar` — what each keyboard shortcut and an inline
    rename do to the state.
  - `socket` — socket paths, the commands, and how each is answered.
  - `session` — the session file's location and data.
  - `ssh` — the SSH reconnection lifecycle with exponential backoff.
  - `browser` — the browser daemon's paths, start-up poll, request ids and
    stream port file.
  - `cli` — the client's commands and the JSON-RPC request for each.
  - `ghostty::input` — hardware keycodes and modifier masks to the terminal
    engine's keys and modifier bits.
  - `ids`, `text`, `workspace` — UUIDs, text helpers, the workspace record.
- `tests/` — tests of the library on concrete values.
- `app/` — the program around the library: GTK window, tokio socket server,
  session file I/O, SSH and browser processes, and the CLI's argument parsing
  and socket client.
