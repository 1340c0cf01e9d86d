# aihelper

A desktop productivity assistant: an overlay with AI chat, tasks, notes and
projects, fed by a local activity log (typing per app, time per window).

`src/` is the library, written in Verus and verified:

- `db.rs` — the SQLite activity database (schema migrations, conversations,
  messages, tasks, settings, activity rows, projects and rules, tips, notes).
  What the database holds is outside the proof; the contracts state which
  statements each method runs, in order (`Database::ran`), which settings
  reads gave which values, how each reply is read into records, and which
  message each failure carries.
- `records.rs`, `sql.rs` — the records, the connection, and the columns as
  `rusqlite` reads them.
- `statements.rs` — every statement the database methods run, the schema
  migrations among them, as exact SQL text and parameters.
- `insights.rs` — the recent-typing window, keystroke summaries, durations.
- `suggest.rs` — project suggestions from window activity.
- `context.rs` — the activity digest given to the AI.
- `extract.rs` — finding a JSON array in an AI reply.
- `tools.rs` — the tools offered to the AI and their dispatcher.
- `commands.rs` — what the interface's commands do.
- `input_monitor.rs` — key classification, typing buffer, focus tracking.
- `config.rs`, `text.rs` — configuration defaults and text helpers.

`tests/` holds the tests; `app/` is the Tauri shell (windows, tray, shortcut,
file I/O, the input monitor's loop, and the floating-point statistics).
