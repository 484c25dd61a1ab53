# alani-ipc

Capability-aware message passing contracts, verified with Verus: ports,
channels, message envelopes, shared-memory handles, bounded event queues and
route tables.

## Layout

- `src/lib.rs`: errors, rights bitsets, data classes and redaction, trace
  contexts, catalog metadata.
- `src/port.rs`: port descriptors, open requests, the fixed-capacity port
  table (no two ports share an identifier or a name).
- `src/channel.rs`: channel descriptors, payload descriptors, message headers
  and envelopes (at most four payloads, lengths kept consistent).
- `src/shared_memory.rs`: regions, their seal/revoke lifecycle, grants.
- `src/queue.rs`: events and the fixed-capacity ring queue with its overflow
  policies.
- `src/router.rs`: route rules, decisions and the fixed-capacity router.
- `src/text.rs`: character-exact comparison of string slices.

Each validation routine has an `open spec fn` that lists its checks in the
order in which they are made; the executable code is proved to return exactly
what that specification says.  Containers are viewed as sequences of their
live entries.  The `lemma_*` proof functions state properties of the library
as a whole: fail-closed routing, opening and sending, sealing before transfer
and revoked memory staying revoked,
FIFO order of queues, uniqueness of table entries, and what a table, router,
envelope or queue holds after a series of calls.

Numeric constants and the rights sets named in the API are plain `const`
items and constructor functions (`IpcRights::send()`, `PortId::invalid()`,
`TraceContext::empty()`, `IpcCatalog::current()`).
