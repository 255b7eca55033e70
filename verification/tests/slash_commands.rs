use std::str::FromStr;
use codex_cli::slash_command::{built_in_slash_commands, SlashCommand};

#[test]
fn commands_are_kebab_case() {
    assert_eq!(SlashCommand::Model.command(), "model");
    assert_eq!(SlashCommand::ElevateSandbox.command(), "setup-elevated-sandbox");
    assert_eq!(SlashCommand::TestApproval.command(), "test-approval");
    assert_eq!(SlashCommand::Mcp.command(), "mcp");
}

#[test]
fn every_command_is_found_again_from_its_string() {
    for c in SlashCommand::all_commands() {
        assert_eq!(SlashCommand::from_command(c.command()), Some(c));
    }
    assert_eq!(SlashCommand::from_command("elevate-sandbox"), None);
    assert_eq!(SlashCommand::from_command("Model"), None);
    assert_eq!(SlashCommand::from_command("/model"), None);
    assert_eq!(SlashCommand::from_command(""), None);
}

#[test]
fn debug_build_lists_every_command_in_order() {
    let listed = built_in_slash_commands(true);
    assert_eq!(listed.len(), 29);
    assert_eq!(listed[0], ("model", SlashCommand::Model));
    assert_eq!(listed[3], ("setup-elevated-sandbox", SlashCommand::ElevateSandbox));
    assert_eq!(listed[28], ("test-approval", SlashCommand::TestApproval));
    for (name, c) in &listed {
        assert_eq!(*name, c.command());
    }
}

#[test]
fn release_build_hides_debugging_commands() {
    let listed = built_in_slash_commands(false);
    assert_eq!(listed.len(), 27);
    assert!(listed.iter().all(|(_, c)| *c != SlashCommand::Rollout && *c != SlashCommand::TestApproval));
    assert_eq!(listed[25], ("ps", SlashCommand::Ps));
    assert_eq!(listed[26], ("personality", SlashCommand::Personality));
    assert!(!SlashCommand::Rollout.is_visible(false));
    assert!(SlashCommand::Rollout.is_visible(true));
    assert!(SlashCommand::Diff.is_visible(false));
}

#[test]
fn descriptions() {
    assert_eq!(SlashCommand::Quit.description(), "退出 Codex");
    assert_eq!(SlashCommand::Exit.description(), SlashCommand::Quit.description());
    assert_eq!(SlashCommand::Diff.description(), "显示 git diff（包含未跟踪文件）");
    assert_eq!(SlashCommand::Init.description(), "创建包含 Codex 指令的 AGENTS.md 文件");
}

#[test]
fn availability_during_a_task() {
    assert!(!SlashCommand::New.available_during_task());
    assert!(!SlashCommand::Model.available_during_task());
    assert!(!SlashCommand::Logout.available_during_task());
    assert!(SlashCommand::Diff.available_during_task());
    assert!(SlashCommand::Quit.available_during_task());
    assert!(SlashCommand::Agent.available_during_task());
    let blocked = SlashCommand::all_commands().into_iter().filter(|c| !c.available_during_task()).count();
    assert_eq!(blocked, 13);
}

#[test]
fn from_str_reads_command_strings() {
    assert_eq!(SlashCommand::from_str("setup-elevated-sandbox").unwrap(), SlashCommand::ElevateSandbox);
    assert_eq!("diff".parse::<SlashCommand>().unwrap(), SlashCommand::Diff);
    assert!(SlashCommand::from_str("undo").is_err());
}

#[test]
fn as_ref_is_the_command_string() {
    for c in SlashCommand::all_commands() {
        let s: &str = c.as_ref();
        assert_eq!(s, c.command());
        assert!(!s.starts_with('/'));
        assert_eq!(SlashCommand::from_str(s).unwrap(), c);
    }
}
