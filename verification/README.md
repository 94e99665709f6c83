# scrobble_scrubber

Logic of a Last.fm scrobble scrubber, verified with Verus: the on-disk track cache, the
scrubber's events, progress and status, rewrite rules and pending edits, the command line's
configuration merging, provider selection and output, the MusicBrainz command's reports, the
desktop workshop's rule testing and background worker, and the terminal rule workshop.

- `src/` — the verified library. Each public function states its result in `ensures` over spec
  functions and views; `src/laws.rs` holds the properties that relate several operations.
  Calls into `regex`, `chrono`, `lastfm-edit` and a few std functions sit behind small trusted
  wrappers whose contracts name or state what those calls return.
- `tests/` — tests on concrete values, run against the real outside crates.
- `app/` — the command line: argument parsing (clap), JSON files (serde), prompts and printing,
  and the loops that drive the library's step functions (the terminal workshop, the worker).
