# dlsite-tui

A terminal client for browsing and downloading a purchased DLsite library,
built around a library whose logic is verified with Verus.

Layout:

- `src/` — the verified library (`dlsite_tui`):
  - `text.rs` — character-level string helpers (search, decimal formatting).
  - `api.rs` — scraping the CSRF token, percent-decoding, judging the login
    reply, building request URLs, picking the product record.
  - `session.rs` — the cookie jar: loading, session detection, CSRF cookie,
    saving.
  - `config.rs` — the settings and where they are kept.
  - `db.rs` — the work record.
  - `app.rs` — the screens as a state machine: key presses, command results
    and progress messages, with the invariant every screen keeps.
  - `jobs.rs` — the background download and library-sync jobs as state
    machines.
  - `ui.rs` — what each screen shows (texts, visible rows, geometry).
  - `laws.rs` — properties that span several calls.
- `app/` — the program around it: terminal I/O (crossterm, ratatui), HTTP
  (reqwest), the SQLite database (rusqlite), settings files (serde_json),
  and the threads that run the jobs.
- `tests/` — tests of the library on concrete values.

Run `dlsite-tui` from the directory where `info.db` and `downloads/` should
be created.
