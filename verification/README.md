# curvine

Verified core logic of the Curvine distributed file system client, worker and
FUSE mount, written in Verus.

- `src/` — the library. Its functions carry contracts proved by Verus, with
  two exceptions: the few wrappers marked `#[verifier::external_body]`
  (lowercasing and alphabetic tests from std, appending a character to a
  string, and the `regex` match of a data directory entry), whose contracts
  are trusted rather than proved, and `CurvineObjectStoreProvider::new`,
  which builds a value with no fields and states nothing.
  - `text`, `units` — character-sequence helpers and the parsers of
    duration, byte-size and integer strings used in configuration files.
  - `errors` — file system errors, the worker-failure classification and the
    Python exception mapping.
  - `state` — file metadata.
  - `fallback` — the reader that falls back from Curvine workers to the
    under file system, as a state machine driven by the caller's I/O.
  - `conf`, `worker_conf` — cluster and worker configuration.
  - `fuse`, `sender` — the decisions of the FUSE file system and of the
    reply loop.
  - `lance` — routing of LanceDB connections to the Curvine object store.
- `tests/` — tests run against the compiled library.
- `app/` — the I/O around the library: configuration files and environment,
  system user lookups, timing, and the loops that perform reads and kernel
  writes.
