# control_plane

Verified core of a storage-cluster control plane: the identifiers and
message-bus types that the agents exchange, the objects and keys of the
persistent store, and the decisions that the store client, the deployer,
the test-cluster layout and the command-line plugin take. The functions of
`src/` state what they compute in Verus contracts (the `From` conversions
through their `from_spec`); the proof functions state the laws that hold
across operations (orderings, round trips, uniqueness of names and
keys, what cordoning and uncordoning a node keep).

Layout:

- `src/ids.rs` — resource identifiers, UUID defaults, percent-decoded child URIs
- `src/text.rs` — decimal and hexadecimal notation of numbers
- `src/v0.rs`, `src/pool_state.rs` — message-bus enums, messages, conversions, routing
- `src/store.rs`, `src/nexus_info.rs` — store object types, node specs, nexus information and keys
- `src/etcd.rs` — reading stored pairs, missing entries, the reaction of a watch to events
- `src/deployer.rs`, `src/testlib.rs` — instance names, bus plan, test-cluster layout and the pool requests that set it up
- `src/grpc.rs`, `src/openapi.rs` — pool requests, REST node/volume models, plugin rows
- `app/` — the I/O around the library: the etcd client, serialisable records, the environment
- `tests/` — tests on concrete values
