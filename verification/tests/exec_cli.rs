use std::path::PathBuf;

use codex_cli::approval_mode::{ApprovalModeCliArg, AskForApproval};
use codex_cli::exec_cli::{Color, ResumeArgs, ResumeArgsRaw};

fn raw(session_id: Option<&str>, last: bool, prompt: Option<&str>) -> ResumeArgsRaw {
    ResumeArgsRaw {
        session_id: session_id.map(str::to_string),
        last,
        all: true,
        images: vec![PathBuf::from("a.png")],
        prompt: prompt.map(str::to_string),
    }
}

#[test]
fn resume_last_takes_lone_positional_as_prompt() {
    const PROMPT: &str = "echo resume-with-global-flags-after-subcommand";
    let args = ResumeArgs::from(raw(Some(PROMPT), true, None));
    assert_eq!(args.session_id, None);
    assert_eq!(args.prompt.as_deref(), Some(PROMPT));
    assert!(args.last);
    assert!(args.all);
    assert_eq!(args.images, vec![PathBuf::from("a.png")]);
}

#[test]
fn resume_keeps_session_id_without_last_or_with_prompt() {
    let args = ResumeArgs::from(raw(Some("abc"), false, None));
    assert_eq!(args.session_id.as_deref(), Some("abc"));
    assert_eq!(args.prompt, None);
    let args = ResumeArgs::from(raw(Some("abc"), true, Some("hi")));
    assert_eq!(args.session_id.as_deref(), Some("abc"));
    assert_eq!(args.prompt.as_deref(), Some("hi"));
}

#[test]
fn color_defaults_to_auto() {
    assert_eq!(Color::default(), Color::Auto);
}

#[test]
fn approval_mode_selects_policy() {
    assert_eq!(AskForApproval::from(ApprovalModeCliArg::Untrusted), AskForApproval::UnlessTrusted);
    assert_eq!(AskForApproval::from(ApprovalModeCliArg::OnFailure), AskForApproval::OnFailure);
    assert_eq!(AskForApproval::from(ApprovalModeCliArg::OnRequest), AskForApproval::OnRequest);
    assert_eq!(AskForApproval::from(ApprovalModeCliArg::Never), AskForApproval::Never);
}
