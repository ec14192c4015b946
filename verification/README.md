# lolshorts

The core of LoLShorts, a recorder that clips the highlights of League of
Legends games, written in Verus: every function in `src/` carries a contract
that the verifier proves.

## Layout

- `src/` — the verified library.
  - `recording/` — audio capture arguments and device lists, the game events
    that trigger clips and how close events are merged, the recorder and
    replay-buffer state machines, and the FFmpeg arguments of segments and clips.
  - `video/` — clip selection for automatic edits, the canvas overlay and
    watermark filter graph, and the FFmpeg filters of the video processor.
  - `storage/` — where games, clips and templates are kept, storage totals, and the clip
    records (ids from paths, tags, ratings, annotations, searches).
  - `settings/` — recording settings, their defaults and the per-platform
    recommendations.
  - `payments/`, `auth/`, `feature_gate/`, `supabase/` — subscription checkout,
    webhook decisions, tiers and the features they unlock.
  - `lcu.rs`, `hotkey.rs`, `circuit_breaker.rs`, `security.rs`, `utils/` — the
    League client lockfile and sessions, hotkeys, the circuit breaker, input
    validation, retries and logging settings.
  - `text.rs`, `clock.rs` — character-level helpers and the system clock.
- `tests/` — tests of the library on concrete values.
- `app/` — the program around the library: it reads the environment, the file
  system and the system's tools, runs the loops that sleep, and holds the
  floating-point figures and the serde copies of library types.

Durations and times are whole milliseconds throughout the library.

Paths follow the rules of `std::path` on Windows, where the application runs:
`\` and `/` separate components, and a path may begin with a drive, UNC,
device or verbatim prefix.
