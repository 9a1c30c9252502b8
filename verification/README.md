# frb_run

`frb run` runs a Flutter app that has a Rust library and keeps it in sync. Hot
reload and hot restart are Dart-level, so neither picks up a rebuilt Rust
library; the process has to be restarted for that. This crate decides what a
change requires, and drives `flutter run --machine` accordingly.

- `src/` holds the decisions, verified with Verus: what a changed file requires,
  what to watch, what a line of the daemon says, what a key does, and in which
  order things are rebuilt, started and torn down.
- `app/` does what they say: it spawns processes, watches files, reads keys and
  prints. Its `run` takes the code generator it serves as a `Codegen`.
- `tests/` runs the library.

Paths are byte strings with `/` between their parts, whatever the system. Where
it separates them otherwise, `app/` spells them that way before it hands them
over, and keeps a drive or a `\\?\` prefix as the first part. Where a path is
shown or becomes an argument, the library spells it as the system does.

Three things are taken from elsewhere and only named in contracts: what
`serde_json` reads from a text, how it writes a value, and what
`String::from_utf8_lossy` makes of bytes that are not UTF-8.
