# fanling

Fanling stores personal data items (wiki-like pages and to-do tasks) in a
git repository, so that several installations (a PC and Android phones)
share them, and finds them through a local search database.

This crate is the verified core of Fanling, written in Verus. Every
function in `src/` carries a contract (`requires` / `ensures`) that Verus
proves; the few calls into other crates (`regex`, `chrono`, `difference`,
`rand`) and into `std` that Verus cannot read go through small trusted
wrappers, each documented with what it claims.

## Layout

- `src/interface.rs` — responses, errors and life-cycle events exchanged
  with a main program; `StringMap`, a map of strings kept as a list.
- `src/engine.rs` — requests and actions, and what the engine decides for
  each request and event.
- `src/world.rs` — what the collection of items decides for each request,
  the cross-check of store and search database, merge conflicts.
- `src/edits.rs` — items as they are stored; creating and updating items
  from requests, resolving the conflicts of a merge, reading the stored
  items back in, answering the cross-check.
- `src/store.rs` — known items, pending changes, identifiers and the
  repository paths of items.
- `src/item.rs`, `src/task.rs` — item bases, lists of items, tasks (their
  data, validation, readiness and merging).
- `src/repo_shared.rs`, `src/repo_plan.rs` — the git layer's data and its
  decisions (opening, repairing, merging, tree and index edits, credentials).
- `src/search.rs` — rows of the search database as list entries.
- `src/keys.rs` — ADB input commands for typing text on Android.
- `src/c_interface.rs`, `src/pc.rs` — the logic of the Android and PC
  front ends (options, what a response shows).
- `src/convert.rs`, `src/text.rs`, `src/kvlist.rs`, `src/random.rs`,
  `src/clock.rs`, `src/shared.rs` — helpers.
- `app/` — the program around the library: the ADB command tool, reading
  requests from JSON, items as YAML documents, and the git repository
  itself (via `git2`).
- `tests/` — tests of the library.
