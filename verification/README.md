# rorm-lib

C bindings for [rorm-db](https://crates.io/crates/rorm-db), with the decisions behind
them verified in [Verus](https://github.com/verus-lang/verus).

A request that arrives over the C interface is checked and turned into plain data,
carried out by the database on an asynchronous runtime, and answered through a
callback.

- `src/` is the verified library. It says what each request turns into, by which
  error it is refused and which of several faults counts, where it is executed, what
  its callback is told of every outcome, and what reading a column of a row gives.
- `app/` is the C interface around it: the types that cross it, the runtime and its
  lock, the calls into the database, and the callbacks.
- `tests/` runs the library, with rows of an SQLite database in memory.

What the library takes on trust stands beside the calls that it makes into other
crates: the calendar of `chrono` in `src/calendar.rs`, the rows of `rorm-db` in
`src/columns.rs`, and the check for UTF-8 of the standard library in `src/utils.rs`.
