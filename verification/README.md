# aria_gui

The logic of the ARIA desktop assistant, verified with Verus.

- `src/` is the library. `text` (trimming, lines), `json` (JSON documents as
  plain values; reading and string literals go through `serde_json`,
  objects are written here member by member in the form `serde_json`
  gives a struct),
  `daemon` (the line protocol of the ARIA daemon: request lines, reply
  handling, reconnect policy), `llm` (chat messages, the streamed answer
  reader, the delegation tool), `agent` (what the frontend is told during a
  turn), `db` (stored confirmations, clearing, the clock).
- `app/` is the Tauri shell around it: sockets, HTTP streaming, SQLite and
  the commands the Svelte frontend invokes.
- `tests/` runs the library on concrete values.
