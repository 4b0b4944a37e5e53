# delta_snapshot

Verified building blocks for snapshots of Delta tables:

- `crc`: the state that a version checksum records, when it is consistent, and how it is read from
  and written to its persisted shape.
- `snapshot`: the builder of snapshots, from storage or from a hint that a connector supplies, with
  the rules for catalog-managed tables and for replaying stale checksum state.
- `ffi`: snapshot hints as a C caller supplies them, one component at a time.
- `alloc_stats`: cumulative counters of allocated bytes.

Every verified function in `src/` states in its contract what it returns or changes, and Verus
proves it. What a build leaves to its host (storage, and rules of the table format that lie
elsewhere) stands behind the traits `TableFormat` and `Engine`; nothing is assumed of their answers.
Calls into other crates stand behind small wrappers. Their doc comments say what is taken on trust;
the three that touch the counters of the process promise nothing of the values.

`app/` holds the edges: JSON documents, the C interface, the process allocator and the log.
