# rustyray

A Ray-style runtime core whose logic is verified with Verus.

- `src/` is the verified library: typed identifiers; the error type and its
  messages; the in-memory object store (an LRU cache bounded by the memory
  limit, plus a pinned area that is never evicted), with its statistics and
  laws; task specifications, the task builder and the function registry; the
  shutdown state machine of the task system and the byte encoding of task
  outcomes; the retry policy that reads of task results follow; the runtime
  slot's lifecycle; and the analysis behind the `remote`, `actor`,
  `actor_methods` and `main` macros.
- `tests/` runs the library on concrete values.
- `app/` is the asynchronous layer around it: serialization with bincode, the
  store shared behind a lock, typed object references that wait for their
  values, the task executor, the global runtime, the Ray-style `put`/`get`
  API, and the macros' code generation with `syn` and `quote`.
