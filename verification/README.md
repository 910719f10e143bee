# sideline

The verified core of Sideline, a Windows side-docked to-do strip.

The library (`src/`) holds the decisions; the application (`app/`) holds
the file system, the Tauri window and the Win32 AppBar calls that carry
them out.

- `model` — tasks and settings, what makes them valid, first-use values.
- `disk` — the requests a store makes of the file system, how a read is
  classified and decoded, error texts, sibling file names, and a model of
  the files that each request acts on.
- `store` — `JsonStore`: load, write check, preservation of unsaved data.
- `save`, `recover` — saving and recovery as state machines: each step
  takes the reply to the previous request and yields the next request.
- `laws` — invariants of both machines over the file model: a failed save
  or recovery never changes the primary; a successful save replaced exactly
  the loaded snapshot and left a recovery point; a recovery never writes the
  backup and keeps the primary's exact bytes before replacing it.
- `display` — shown settings, native changes between settings, rollback
  errors, preserve-and-reload answers.
- `geometry` — dock rectangles, fullscreen detection, the watcher's tick.

`tests/storage.rs` drives the machines against an in-memory file system.
