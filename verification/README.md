# engram

An issue tracker for agents: sprints, missions, epics, issues, tasks, notes,
retrospectives and a change log, kept in SQLite and driven from the command
line (`engram sprint create …`, `engram issue claim …`, `engram session restore …`).

## Layout

- `src/` — the library, verified with Verus. It holds every rule and
  computation of the tracker, each with a contract:
  - `enums`, `models`, `text`: wire names of the enumerations (with
    round-trip lemmas), the records, and the text helpers they rest on.
  - `issue_flow`: who may move an issue where (update, claim, release,
    finish, cancel), what each move writes to the change log, and the laws
    that hold across moves.
  - `blocking`: the blocking graph of an issue or a project (chains, leaf
    blockers, cycle detection).
  - `session`, `records`, `notes`, `retro`, `planning`: session restore and
    end checks, the sprint board, change-log rows of every update, note
    placement (single and all-or-nothing batches), retrospective reports.
  - `query`: the SQL text and bound arguments of the filtered listings.
  - `render`: the plain-text forms handed to agents.
  - `cli`: the command-line grammar, each command group's parser, and the
    typed requests, failure codes and exit statuses.
- `app/` — the `engram` binary: SQLite access through `sqlx`, JSON output,
  hook installation and the command dispatch. It reads and writes the
  store around the library's decisions; what it still decides itself is
  which reads to make (the compact or the full session view, the empty
  snapshot when no sprint is active, the issue an already converted action
  item points to). `hook install` and `hook uninstall` edit the agent
  settings file named by the `ENGRAM_HOOK_SETTINGS` environment variable.
- `tests/` — the test suite, run against the compiled library.
