use codex_cli::ghost_snapshot::{
    format_bytes, format_ignored_untracked_files_warning, format_large_untracked_warning,
    format_snapshot_warnings, snapshot_followup, GhostSnapshotReport, IgnoredUntrackedFile,
    LargeUntrackedDir, SnapshotAction, SnapshotOutcome,
};

fn dir(path: &str, file_count: usize) -> LargeUntrackedDir {
    LargeUntrackedDir { path: path.to_string(), file_count }
}

fn file(path: &str, byte_size: i64) -> IgnoredUntrackedFile {
    IgnoredUntrackedFile { path: path.to_string(), byte_size }
}

#[test]
fn large_untracked_warning_includes_threshold() {
    let report = GhostSnapshotReport {
        large_untracked_dirs: vec![dir("models", 250)],
        ignored_untracked_files: Vec::new(),
    };

    let message = format_large_untracked_warning(Some(200), &report).unwrap();
    assert!(message.contains(">= 200 个文件"));
}

#[test]
fn large_untracked_warning_disabled_when_threshold_disabled() {
    let report = GhostSnapshotReport {
        large_untracked_dirs: vec![dir("models", 250)],
        ignored_untracked_files: Vec::new(),
    };

    assert_eq!(format_large_untracked_warning(None, &report), None);
}

#[test]
fn large_untracked_warning_exact_text_for_one_dir() {
    let report = GhostSnapshotReport {
        large_untracked_dirs: vec![dir("models", 250)],
        ignored_untracked_files: Vec::new(),
    };
    assert_eq!(
        format_large_untracked_warning(Some(200), &report).unwrap(),
        "仓库快照已忽略较大的未跟踪目录（>= 200 个文件）：models（250 个文件）。这些目录不会被纳入快照和撤销清理。可调整 `ghost_snapshot.ignore_large_untracked_dirs` 来改变该行为。"
    );
}

#[test]
fn large_untracked_warning_lists_three_dirs_then_counts_the_rest() {
    let report = GhostSnapshotReport {
        large_untracked_dirs: vec![dir("a", 1), dir("b", 22), dir("c", 333), dir("d", 4), dir("e", 5)],
        ignored_untracked_files: Vec::new(),
    };
    assert_eq!(
        format_large_untracked_warning(Some(-3), &report).unwrap(),
        "仓库快照已忽略较大的未跟踪目录（>= -3 个文件）：a（1 个文件）, b（22 个文件）, c（333 个文件）, 另有 2 个。这些目录不会被纳入快照和撤销清理。可调整 `ghost_snapshot.ignore_large_untracked_dirs` 来改变该行为。"
    );
}

#[test]
fn large_untracked_warning_absent_without_dirs() {
    let report = GhostSnapshotReport {
        large_untracked_dirs: Vec::new(),
        ignored_untracked_files: vec![file("big.bin", 10)],
    };
    assert_eq!(format_large_untracked_warning(Some(200), &report), None);
}

#[test]
fn format_bytes_picks_the_unit() {
    assert_eq!(format_bytes(0), "0 B");
    assert_eq!(format_bytes(1023), "1023 B");
    assert_eq!(format_bytes(1024), "1 KiB");
    assert_eq!(format_bytes(1536), "1 KiB");
    assert_eq!(format_bytes(1048575), "1023 KiB");
    assert_eq!(format_bytes(1048576), "1 MiB");
    assert_eq!(format_bytes(5 * 1048576 + 1), "5 MiB");
    assert_eq!(format_bytes(-5), "-5 B");
    assert_eq!(format_bytes(i64::MIN), "-9223372036854775808 B");
    assert_eq!(format_bytes(i64::MAX), "8796093022207 MiB");
}

#[test]
fn ignored_files_warning_exact_text() {
    let report = GhostSnapshotReport {
        large_untracked_dirs: Vec::new(),
        ignored_untracked_files: vec![
            file("a.bin", 2048),
            file("b.bin", 3 * 1048576),
            file("c.bin", 7),
            file("d.bin", 8),
        ],
    };
    assert_eq!(
        format_ignored_untracked_files_warning(Some(1048576), &report).unwrap(),
        "仓库快照已忽略大于 1 MiB 的未跟踪文件：a.bin (2 KiB), b.bin (3 MiB), c.bin (7 B), 1 more。这些文件在撤销清理时会被保留，但其内容不会被写入快照。可调整 `ghost_snapshot.ignore_large_untracked_files` 来改变该行为。若想避免再次提示，请更新你的 `.gitignore`。"
    );
}

#[test]
fn ignored_files_warning_absent_without_threshold_or_files() {
    let with_files = GhostSnapshotReport {
        large_untracked_dirs: Vec::new(),
        ignored_untracked_files: vec![file("a.bin", 2048)],
    };
    assert_eq!(format_ignored_untracked_files_warning(None, &with_files), None);
    let without_files = GhostSnapshotReport {
        large_untracked_dirs: vec![dir("models", 250)],
        ignored_untracked_files: Vec::new(),
    };
    assert_eq!(format_ignored_untracked_files_warning(Some(1024), &without_files), None);
}

#[test]
fn snapshot_warnings_put_dirs_before_files() {
    let report = GhostSnapshotReport {
        large_untracked_dirs: vec![dir("models", 250)],
        ignored_untracked_files: vec![file("a.bin", 2048)],
    };
    let warnings = format_snapshot_warnings(Some(1024), Some(200), &report);
    assert_eq!(warnings.len(), 2);
    assert!(warnings[0].starts_with("仓库快照已忽略较大的未跟踪目录"));
    assert!(warnings[1].starts_with("仓库快照已忽略大于 1 KiB"));
    assert_eq!(format_snapshot_warnings(None, None, &report), Vec::<String>::new());
}

#[test]
fn followup_after_capture_warns_then_records() {
    let report = GhostSnapshotReport {
        large_untracked_dirs: vec![dir("models", 250)],
        ignored_untracked_files: Vec::new(),
    };
    let outcome = SnapshotOutcome::Captured(report.clone());
    let actions = snapshot_followup(true, Some(1024), Some(200), &outcome);
    assert_eq!(
        actions,
        vec![
            SnapshotAction::Warn(format_large_untracked_warning(Some(200), &report).unwrap()),
            SnapshotAction::RecordGhostCommit,
        ]
    );
    let quiet = snapshot_followup(false, Some(1024), Some(200), &outcome);
    assert_eq!(quiet, vec![SnapshotAction::RecordGhostCommit]);
}

#[test]
fn followup_after_panic_notifies() {
    let outcome = SnapshotOutcome::Panicked("task 7 panicked".to_string());
    assert_eq!(
        snapshot_followup(true, None, None, &outcome),
        vec![SnapshotAction::NotifyBackground(
            "ghost snapshot 发生 panic，已禁用快照：task 7 panicked。".to_string()
        )]
    );
}

#[test]
fn followup_after_failure_or_cancel_does_nothing() {
    for outcome in [SnapshotOutcome::NotAGitRepository, SnapshotOutcome::Failed, SnapshotOutcome::Cancelled] {
        assert!(snapshot_followup(true, Some(1), Some(1), &outcome).is_empty());
    }
}

use codex_cli::ghost_snapshot::{snapshot_task_step, start_snapshot_task, SnapshotEvent};

#[test]
fn task_warns_once_when_slow_then_marks_gate_once() {
    let mut state = start_snapshot_task(false);
    assert!(state.timer_pending);
    assert_eq!(snapshot_task_step(&mut state, None, None, &SnapshotEvent::TimerElapsed), vec![SnapshotAction::WarnSlowSnapshot]);
    assert!(snapshot_task_step(&mut state, None, None, &SnapshotEvent::TimerElapsed).is_empty());
    let ended = SnapshotEvent::Ended(SnapshotOutcome::NotAGitRepository);
    assert_eq!(snapshot_task_step(&mut state, None, None, &ended), vec![SnapshotAction::MarkGateReady]);
    assert!(state.finished);
    assert!(snapshot_task_step(&mut state, None, None, &ended).is_empty());
    assert!(snapshot_task_step(&mut state, None, None, &SnapshotEvent::TimerElapsed).is_empty());
}

#[test]
fn task_without_warnings_never_warns_of_slowness() {
    let mut state = start_snapshot_task(true);
    assert!(!state.timer_pending);
    assert!(snapshot_task_step(&mut state, None, None, &SnapshotEvent::TimerElapsed).is_empty());
    let report = GhostSnapshotReport { large_untracked_dirs: vec![dir("models", 250)], ignored_untracked_files: Vec::new() };
    let ended = SnapshotEvent::Ended(SnapshotOutcome::Captured(report));
    assert_eq!(
        snapshot_task_step(&mut state, Some(1), Some(1), &ended),
        vec![SnapshotAction::RecordGhostCommit, SnapshotAction::MarkGateReady]
    );
}

#[test]
fn cancelled_task_still_marks_gate() {
    let mut state = start_snapshot_task(false);
    let ended = SnapshotEvent::Ended(SnapshotOutcome::Cancelled);
    assert_eq!(snapshot_task_step(&mut state, None, None, &ended), vec![SnapshotAction::MarkGateReady]);
    assert!(snapshot_task_step(&mut state, None, None, &SnapshotEvent::TimerElapsed).is_empty());
}
