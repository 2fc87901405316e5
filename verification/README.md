# Spotifast core

The part of a Spotify client that decides: which request is sent and when it is
tried again, which session serves it, what an answer means, who is signed in,
when an engine is connected, which releases are shown. Every function of it is
verified with Verus against the contract in its header.

- `src/` is the library. It does no I/O: it takes what happened and says what is
  to be done next.
- `app/` is the program around it: threads, sockets, files, and the window.
- `tests/` runs the library on concrete values.

Where to start reading:

- `worker_model.rs` says what each command does to the state of the worker, and
  what is done outside; `worker.rs` is the worker; `worker_laws.rs` holds what is
  true of it whatever it is told.
- `gateway.rs` and `exchange.rs` take a request of the interface to the session
  that serves it and back to its answer; `sending.rs` and `transport.rs` are its
  way over the network.
- `releases.rs`, `release_library.rs`, `release_scan.rs`, `release_order.rs` and
  `release_view.rs` find, order and show new releases.
- `file_path.rs` joins and compares paths as the platforms do; `paths.rs` and
  `caches.rs` say what is kept where; `disk_model.rs` says what a migration does
  to a disk.
