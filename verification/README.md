# pi_wizard_core

The core of a desktop for Pi, a coding agent that runs as a child process.

The library in `src/` decides and never acts. It holds the state of the runs, reads
what Pi stores, and says what is to be done next. Every function states what it
returns or changes, and Verus proves it.

- `src/runtime/`: the state of a run, the correlation of requests and responses, the
  stream that is shown, questions of extensions, the Stop, the owner of a process, the
  queue to a renderer, and the manager of all runs.
- `src/session_*.rs`, `src/timeline.rs`, `src/reverse_lines.rs`: the catalog of sessions
  and their history, read in bounded pages.
- `src/worktree*.rs`: Git worktrees, from the inspection of their base to their removal,
  and the journal of what was begun.
- The other modules hold text, paths, JSON, digests, ordered maps and limits.

`tests/` runs the library on given values. `app/` is ordinary Rust that owns the
processes, the files, Git, the clock and the asynchronous runtime.
