//! Command-line, slash-command, model-preset and snapshot-warning logic of the
//! Codex terminal client, with its behaviour stated and proved.

pub mod text;
pub mod ghost_snapshot;
pub mod slash_command;
pub mod approval_mode;
pub mod exec_cli;
pub mod model_presets;
pub mod cargo_bin;
