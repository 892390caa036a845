# flowlocal

The verified core of FlowLocal, a local voice-dictation desktop app: a global
hotkey records speech, Python services transcribe and clean it up, and the
text is typed into the focused application.

`src/` is a Verus library. Its functions carry contracts that Verus proves,
except a few small wrappers around calls into `std`, `serde_json`, `base64`
and `uuid`, whose contracts are trusted and say in their doc comments what
they claim of the called function:

- `text`, `text_map` — character-level helpers (trim, split, contains, word
  count) and a text-keyed map with unique keys.
- `context` — process name and window title → context label.
- `settings` — the enumerated settings and the text encoding of stored values
  (JSON strings, decimal numbers, flags).
- `settings_store` — every setting read from the settings table with its
  default, and the rows written for it; what is written reads back.
- `hotkey` — hotkey-string parsing and the press/release recording decisions.
- `audio` — the capture thread's decisions.
- `ipc::protocol`, `ipc::bridge` — length-prefixed framing, service requests
  and the handling of their replies.
- `pipeline` — the steps after transcription (context retrieval, cleanup with
  its fallback to the raw text, reports, injection, persistence) as a state
  machine that the program drives.
- `db`, `commands`, `inject` — session records, command checks and the
  text-injection plan.

`app/` is the desktop program around it (Tauri, CPAL, SQLite, TCP, serde),
which performs the I/O that the library decides on. `tests/` exercise the
library.
