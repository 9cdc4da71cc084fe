# devflow

DevFlow is a development runner for native and cross-platform apps
(Android/Gradle, SwiftPM, Xcode, React Native, Flutter, Tauri and generic
projects): it detects what a workspace holds, finds devices, builds,
installs and launches, diagnoses the toolchain, and lets any terminal
reload or restart a running session.

This crate holds DevFlow's logic as a library verified with Verus. Every
function in `src/` carries a `requires`/`ensures` contract over
mathematical models (`Seq`, `Map`, views of the library's types), and the
properties that span several calls are stated as public proof functions
named `law_*`.

## Layout

- `src/` — the verified library. The outside world (running tools, reading
  files, sockets, the clock) stays with the caller: where that work is
  interleaved with decisions, the library takes what was found as plain
  values, or drives the work as a state machine that returns what to do
  next (`target_actions::step`, the start of a session in
  `SessionState::start_step`, the session lifecycle in `session`), or
  takes every probed value at once (`env::prepare_environment`).
  Calls into serde_json, regex and std's path and case-mapping functions
  stand behind a few small trusted wrappers whose contracts name their
  results (`json`, `adapters`, `target_actions`, `text`).
- `tests/` — ordinary Rust tests of the library, run against the real
  outside crates.
- `app/` — the `devflow` command-line program: argument parsing (clap),
  file and process I/O, printing, and the serde copies of the library's
  types; it calls the library for every decision.
