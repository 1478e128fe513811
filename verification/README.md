# Ferrite

The logic of Ferrite, a self-hosted music streaming server, written in
Verus and proved against its contracts.

- `src/` is the verified library: HTTP range requests and the partial
  replies they get, content types, Unix path names, decimal numbers, the
  Turnstile session check, the import pipeline (URL check, yt-dlp run,
  tagging, moving into `Music/`), the Gemini tagging conversation, the
  music folder scan and the folder watcher. Work that waits on the
  outside world (the database, files, processes, HTTP) is driven by step
  functions: state and event in, next state and action out.
- `app/` is the server around it: axum routes, SQLite through sqlx,
  reqwest, lofty, walkdir and tokio, performing the actions that the
  library decides on.
- `tests/` runs the library on concrete inputs, and checks the path and
  number readers against the standard library.
