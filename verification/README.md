# Machine manager

A server that manages sessions of Cartesi machines: each session runs one
machine on a machine server process of its own, and clients create sessions,
run them to given cycles, step them, read and write their memory, ask for
Merkle proofs, store them and end them.

## Layout

- `src/` is the verified library, checked by Verus:
  - `machine.rs`: the machine configuration, hash, proof and access log types;
  - `wire.rs`: the same messages as they travel, with every optional part as
    an `Option`;
  - `conversions.rs`: reading and writing the wire messages, with the
    round-trip laws;
  - `framing.rs`: the Base64 text form of byte fields (through the `base64`
    crate) and the JSON names of access and bracket types;
  - `text.rs`: decimal and list texts, and substring search, for the messages;
  - `session.rs`: a session's state and every decision about it (run plans,
    the steps of running to a cycle, snapshots and rollbacks, run jobs and
    their progress, cycle checks), and the request ids (SHA3-256 through the
    `sha3` crate);
  - `session_manager.rs`: the list of sessions, keyed by id;
  - `service.rs`: how a client request is checked against its session and
    which status a refused or failed request gets.
- `app/` is the program around it: command line, logging, the gRPC services,
  the machine server clients and processes. It hands the library plain values
  and makes the remote calls the library decides on.
- `tests/` exercises the library on concrete values.
