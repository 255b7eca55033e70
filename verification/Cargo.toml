[package]
name = "codex_cli"
version = "0.1.0"
edition = "2021"
publish = false

[dependencies]
clap = { version = "=4.6.7", features = ["derive"] }
thiserror = "=2.0.21"
assert_cmd = "=2.2.2"
strum = { version = "=0.28.0", features = ["derive"] }
strum_macros = "=0.28.0"
indoc = "=2.0.8"
runfiles = "*"
