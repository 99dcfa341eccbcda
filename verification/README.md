# taskman

The verified core of a process manager: the domain model, the engine that
routes requests to a platform backend, the decision logic of the Linux and
Windows backends, the order of process snapshots, and the rules by which the
Python extension reports results and errors.

- `src/` is the library, verified with Verus.
- `app/` holds what stands around it: snapshot collection through `sysinfo`,
  the Linux backend with its `libc::setpriority` call, default backend
  selection, serde and thiserror forms of the domain types, and the PyO3
  module `taskman_native`.
- `tests/` runs the library.
