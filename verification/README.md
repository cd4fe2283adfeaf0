# utils

A verified library of small utilities, with a command-line front end.

- `src/arc_cell.rs`: `ArcCell<T>`, a cell holding an `Arc<T>`; reads clone the
  `Arc`, writes replace it and hand back the previous one.
- `src/logflex.rs`, `src/logflex/colors.rs`: the logic of a log setup: the
  filter of a verbosity, per-level colors, thread labels and the layout of a
  log line.
- `src/statx.rs`: the flags of the `statx` system call and the decoding of
  the record it fills in.
- `src/text.rs`: decimal output and padding as `{}` and `{:N}` print them.
- `app/`: the command line (`arccell`, `stress`, `log`, `statx`, `pid`), which
  starts the logger, makes the system calls and prints.

`tests/` runs the library on concrete values.
