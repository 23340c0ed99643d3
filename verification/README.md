# Rehearsal

Rehearse the recovery of a SQLite backup: restore a completed backup into a
temporary directory, check the restored database, run the application's
assertions, and keep a JSON report of every drill.

## Layout

- `src/` is the library, verified with Verus. It holds the configuration rules
  (`config`), durations (`duration`), the restore protocol (`restore`), the
  timed database checks (`query`), the sequence of a drill and its report
  (`runner`), report rendering and history selection (`report`, `order`), the
  command-line decisions (`cli`) and the text helpers they share (`text`).
  The drill is a set of state machines: each method takes the outcome of a
  piece of outside work and answers with the next piece of work to do.
- `app/` is the executable: argument parsing, file and database work, JSON and
  TOML, and the loop that performs the work the library asks for.
- `tests/` runs the library on concrete inputs, including whole drills driven by
  scripted outcomes.
