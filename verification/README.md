# bevy_repl

A read-eval-print loop for Bevy applications running in a terminal: a one-line
prompt below the normal terminal output, key bindings for editing it, and
commands parsed with `clap` and dispatched as Bevy events.

## Layout

- `src/` is the library, verified with Verus. It holds the editing model of the
  prompt (a `String` buffer with a byte cursor), the keymaps, the command table
  and the routing of submitted lines, the decisions taken on `clap`'s parse
  results, the planning of terminal output (scroll region, prompt line, lines
  printed above the prompt), the prompt layouts, the log buffer and the writer
  that splits formatted log output into lines. Every public function states its
  result in `ensures`; the `law_*` proof functions state properties that relate
  several operations.
- Calls into `shell-words`, `clap`, `ratatui` and `String::from_utf8_lossy` go
  through small trusted wrappers whose contracts are documented beside them.
- `app/` is the Bevy side: plugins, systems, observers, terminal I/O with
  `crossterm`, and the conversions between `crossterm` key events and the
  library's own.
- `tests/` exercises the library on concrete values.
