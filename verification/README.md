# agentctl

`agentctl` runs AI workflows in a repository: it scaffolds `.agents/`, starts
TypeScript workflows under a Node runner (on the host or in a container),
records runs and events in SQLite, drives OpenCode sessions, and offers a
terminal manager for the runs.

The project is written in Verus.

- `src/` is the verified library. It holds every decision the tool makes:
  the command-line dispatch, the IPC protocol and the runner loop's steps,
  the records stored for a run, the tmux and docker command plans, the
  ticket numbering and templates, the scaffold copy plan, the OpenCode
  request checks and replies, and the run manager's state, key map and
  panel text. Contracts state each function's result, and proof functions
  named `law_*` state properties that span functions.
- `app/` is the executable: argument parsing with clap, the terminal,
  processes, the database, the network and the OpenCode SDK. It performs
  what the library decides.
- `tests/` runs the library on concrete inputs.
