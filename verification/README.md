# fuskyom

A terminal music player's browser and playback logic, verified with Verus.

- `src/state.rs` — the abstract state and the rule for every key press and
  player event, as spec functions.
- `src/app.rs` — the executable state machine; each method is proved to
  follow its rule and returns the work (`Effect`) the front end must do.
- `src/library.rs` — directory listings: hidden names skipped, directories
  first, both groups stably sorted by lower-cased name.
- `src/art.rs` — the album-art cache.
- `src/ui.rs` — the texts the screens show (durations, titles, labels).
- `src/text.rs`, `src/paths.rs` — characters, decimal digits, code-point
  order; path parsing and case folding through the standard library.
- `src/laws.rs` — properties across operations.
- `app/` — the unverified front end: file system, lofty, chafa, crossterm
  and ratatui.
