# codex_cli

Verified pieces of the Codex terminal client's command-line layer, written in
Verus.

- `src/slash_command.rs`: the slash commands, their strings, descriptions,
  availability during a task, visibility per build, and parsing.
- `src/model_presets.rs`: the built-in model presets and their upgrade.
- `src/ghost_snapshot.rs`: the warnings after a repository snapshot, and the
  snapshot task as a step function: the slow-snapshot timer, the follow-up of
  the outcome and the release of tool calls.
- `src/exec_cli.rs`, `src/approval_mode.rs`: the data of the `exec` command
  line and the approval policy an option value selects.
- `src/cargo_bin.rs`: the environment variables naming built binaries, the
  decisions of the binary lookup (variable values, assert_cmd candidates,
  fallback build), the repository root above its marker, and runfile path
  normalization.
- `src/text.rs`: decimal rendering, string comparison and joining.

`app/` holds what Verus does not check: the clap parsers, the environment,
file-system and process work of the binary lookup, the threads and timer
that drive the snapshot task, and the build-mode switch.
