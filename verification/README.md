# tokio_rusqlite

An asynchronous handle for rusqlite, verified with Verus.

`src/` is the library. It packs functions up, hands them to the thread that owns the SQLite
connection, serves them there, and reads the answers; every step has a contract that Verus proves.

- `call.rs`: functions packed up to run later, and what a call comes to
- `close.rs`: what an attempt to close leaves behind
- `connection.rs`: `Connection`, the handle that callers hold
- `error.rs`: `Error`
- `foreign.rs`: the types and functions of other crates, and what is taken on trust of them
- `inline.rs`: the backend for targets without threads
- `laws.rs`: what holds of every connection
- `open.rs`: what database to open, and opening it
- `protocol.rs`: what the owner of a connection may answer
- `queue.rs`: the channel to a background thread, event by event
- `threaded.rs`: the backend with a background thread

`app/` is the asynchronous crate around it: it spawns the threads, receives the messages and awaits
the answers. `tests/` runs the library against SQLite.
