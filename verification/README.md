# crabdrive server

The server of crabdrive, a file storage with end-to-end encryption: clients upload
files in encrypted chunks, keep them in a tree of folders with a trash, and share
folders with other users.

- `src/` is the library, verified with Verus: the upload state machine of a
  transfer, storage paths, configuration, access rules, revision history, the
  decisions of every request (as state machines where a request alternates lookups
  and checks), bearer tokens and the walk that purges a subtree. Public functions
  state their results in their contracts, except where a result depends on other
  threads: the state and idle counter of a transfer live in atomics, so
  `FileTransfer::get_state`, `tick_idle`, `touch` and `try_set_state` state only what
  holds of every outcome, and the transfer's laws are stated over its transition
  table. The laws of the library are public proof functions (`lemma_*`).
- `tests/` runs the library on concrete values.
- `app/` is the program around it: configuration loading, the database (diesel and
  SQLite), the chunk storage backends on disk, and the HTTP routes (axum).
