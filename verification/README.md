# ant_node

Replication bootstrap and health probes of a storage node.

- `src/replication/` decides when the bootstrap of a joining node is drained
  (`bootstrap`), how long it waits for the network layer (`network_wait`), and
  states what holds of any sequence of operations (`laws`).
- `src/health.rs` decides readiness, routes probe requests and writes the
  responses; `src/health_laws.rs` states what holds of them; `src/text.rs` has the
  text functions that they use.
- `app/` is the node around the library: locks, sockets and the network.

The functions in `src/` are verified by Verus, except for three short wrappers
around std whose contracts it believes: two that read the monotonic clock
(`src/replication/clock.rs`) and one that decodes the bytes of a request
(`src/text.rs`). It also believes what `src/text.rs` says of
`char::is_whitespace`.
