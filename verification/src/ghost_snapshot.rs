//! Warnings that follow a repository snapshot ("ghost commit"), and what the
//! snapshot task does once the snapshot has finished.

use vstd::prelude::*;

use crate::text::{decimal, join_strings, joined, signed_decimal, signed_to_string, texts, unsigned_to_string};

verus! {

/// A large untracked directory that the snapshot left out.
#[derive(Clone, Debug, PartialEq, Eq)]
pub struct LargeUntrackedDir {
    /// The directory's path, as it is displayed.
    pub path: String,
    /// How many files it holds.
    pub file_count: usize,
}

/// A large untracked file whose contents the snapshot left out.
#[derive(Clone, Debug, PartialEq, Eq)]
pub struct IgnoredUntrackedFile {
    /// The file's path, as it is displayed.
    pub path: String,
    /// Its size in bytes.
    pub byte_size: i64,
}

/// What a snapshot left out.
#[derive(Clone, Debug, PartialEq, Eq)]
pub struct GhostSnapshotReport {
    pub large_untracked_dirs: Vec<LargeUntrackedDir>,
    pub ignored_untracked_files: Vec<IgnoredUntrackedFile>,
}

/// How many directories, or files, a warning names before it only counts the rest.
pub const MAX_LISTED: usize = 3;

pub const KIB: i64 = 1024;

pub const MIB: i64 = 1048576;

pub const DIRS_WARNING_HEAD: &'static str = "仓库快照已忽略较大的未跟踪目录（>= ";

pub const DIRS_WARNING_MIDDLE: &'static str = " 个文件）：";

pub const DIRS_WARNING_TAIL: &'static str = "。这些目录不会被纳入快照和撤销清理。可调整 `ghost_snapshot.ignore_large_untracked_dirs` 来改变该行为。";

pub const FILES_WARNING_HEAD: &'static str = "仓库快照已忽略大于 ";

pub const FILES_WARNING_MIDDLE: &'static str = " 的未跟踪文件：";

pub const FILES_WARNING_TAIL: &'static str = "。这些文件在撤销清理时会被保留，但其内容不会被写入快照。可调整 `ghost_snapshot.ignore_large_untracked_files` 来改变该行为。若想避免再次提示，请更新你的 `.gitignore`。";

/// A byte count as the warnings show it: whole MiB from one MiB up, whole KiB
/// from one KiB up, else bytes.
pub open spec fn bytes_text(bytes: int) -> Seq<char> {
    if bytes >= MIB {
        decimal((bytes / (MIB as int)) as nat) + " MiB"@
    } else if bytes >= KIB {
        decimal((bytes / (KIB as int)) as nat) + " KiB"@
    } else {
        signed_decimal(bytes) + " B"@
    }
}

/// The directory warning names its threshold as `>= <threshold> 个文件`.
pub proof fn lemma_dirs_warning_names_threshold(threshold: int, dirs: Seq<LargeUntrackedDir>)
    ensures
        ({
            let text = large_untracked_warning_text(threshold, dirs);
            let needle = ">= "@ + signed_decimal(threshold) + " 个文件"@;
            text.subrange(16, 16 + needle.len() as int) == needle
        }),
{
    reveal_strlit("仓库快照已忽略较大的未跟踪目录（>= ");
    reveal_strlit(" 个文件）：");
    reveal_strlit(">= ");
    reveal_strlit(" 个文件");
    let head = DIRS_WARNING_HEAD@;
    let middle = DIRS_WARNING_MIDDLE@;
    let number = signed_decimal(threshold);
    let text = large_untracked_warning_text(threshold, dirs);
    let needle = ">= "@ + number + " 个文件"@;
    assert(head.len() == 19);
    assert(middle.len() == 6);
    assert(head.subrange(16, 19) =~= ">= "@);
    assert(middle.subrange(0, 4) =~= " 个文件"@);
    assert(text.subrange(16, 16 + needle.len() as int) =~= needle);
}

/// The directory warning lists every directory when there are at most three;
/// with more, it lists the first three and then one part that counts the
/// rest, which is never zero.
pub proof fn lemma_dir_parts_list_three_then_count(dirs: Seq<LargeUntrackedDir>)
    ensures
        dirs.len() <= 3 ==> dir_parts(dirs).len() == dirs.len(),
        dirs.len() > 3 ==> dir_parts(dirs).len() == 4,
        forall|i: int| 0 <= i < dirs.len() && i < 3 ==> #[trigger] dir_parts(dirs)[i] == dir_part(dirs[i]),
        dirs.len() > 3 ==> dirs.len() - 3 >= 1 && dir_parts(dirs)[3] == "另有 "@ + decimal(
            (dirs.len() - 3) as nat,
        ) + " 个"@,
{
}

/// The file warning lists every file when there are at most three; with
/// more, it lists the first three and then one part that counts the rest,
/// which is never zero.
pub proof fn lemma_file_parts_list_three_then_count(files: Seq<IgnoredUntrackedFile>)
    ensures
        files.len() <= 3 ==> file_parts(files).len() == files.len(),
        files.len() > 3 ==> file_parts(files).len() == 4,
        forall|i: int| 0 <= i < files.len() && i < 3 ==> #[trigger] file_parts(files)[i] == file_part(files[i]),
        files.len() > 3 ==> files.len() - 3 >= 1 && file_parts(files)[3] == decimal(
            (files.len() - 3) as nat,
        ) + " more"@,
{
}

/// Renders a byte count in B, KiB or MiB, rounding down.
pub fn format_bytes(bytes: i64) -> (s: String)
    ensures
        s@ == bytes_text(bytes as int),
{
    if bytes >= MIB {
        let mut s = unsigned_to_string((bytes / MIB) as u64);
        s.append(" MiB");
        return s;
    }
    if bytes >= KIB {
        let mut s = unsigned_to_string((bytes / KIB) as u64);
        s.append(" KiB");
        return s;
    }
    let mut s = signed_to_string(bytes);
    s.append(" B");
    s
}

/// The first `MAX_LISTED` items of `s`, or all of them when there are fewer.
pub open spec fn listed<T>(s: Seq<T>) -> Seq<T> {
    if s.len() > MAX_LISTED {
        s.take(MAX_LISTED as int)
    } else {
        s
    }
}

/// How one large directory is named in the warning.
pub open spec fn dir_part(d: LargeUntrackedDir) -> Seq<char> {
    d.path@ + "（"@ + decimal(d.file_count as nat) + " 个文件）"@
}

/// The parts of the directory warning: the first directories, then how many more.
pub open spec fn dir_parts(dirs: Seq<LargeUntrackedDir>) -> Seq<Seq<char>> {
    let shown = listed(dirs).map_values(|d: LargeUntrackedDir| dir_part(d));
    if dirs.len() > MAX_LISTED {
        shown.push("另有 "@ + decimal((dirs.len() - MAX_LISTED) as nat) + " 个"@)
    } else {
        shown
    }
}

/// The warning about large untracked directories, for a threshold of
/// `threshold` files.
pub open spec fn large_untracked_warning_text(threshold: int, dirs: Seq<LargeUntrackedDir>) -> Seq<char> {
    DIRS_WARNING_HEAD@ + signed_decimal(threshold) + DIRS_WARNING_MIDDLE@ + joined(
        dir_parts(dirs),
        ", "@,
    ) + DIRS_WARNING_TAIL@
}

/// How one ignored file is named in the warning.
pub open spec fn file_part(f: IgnoredUntrackedFile) -> Seq<char> {
    f.path@ + " ("@ + bytes_text(f.byte_size as int) + ")"@
}

/// The parts of the file warning: the first files, then how many more.
pub open spec fn file_parts(files: Seq<IgnoredUntrackedFile>) -> Seq<Seq<char>> {
    let shown = listed(files).map_values(|f: IgnoredUntrackedFile| file_part(f));
    if files.len() > MAX_LISTED {
        shown.push(decimal((files.len() - MAX_LISTED) as nat) + " more"@)
    } else {
        shown
    }
}

/// The warning about ignored large untracked files, for a threshold of
/// `threshold` bytes.
pub open spec fn ignored_files_warning_text(threshold: int, files: Seq<IgnoredUntrackedFile>) -> Seq<char> {
    FILES_WARNING_HEAD@ + bytes_text(threshold) + FILES_WARNING_MIDDLE@ + joined(
        file_parts(files),
        ", "@,
    ) + FILES_WARNING_TAIL@
}

/// The warning about large untracked directories, or `None` when there are none
/// or the directory threshold is switched off.
pub fn format_large_untracked_warning(
    ignore_large_untracked_dirs: Option<i64>,
    report: &GhostSnapshotReport,
) -> (r: Option<String>)
    ensures
        r is Some <==> (report.large_untracked_dirs@.len() > 0
            && ignore_large_untracked_dirs is Some),
        r matches Some(m) ==> m@ == large_untracked_warning_text(
            ignore_large_untracked_dirs->0 as int,
            report.large_untracked_dirs@,
        ),
{
    let dirs = &report.large_untracked_dirs;
    if dirs.len() == 0 {
        return None;
    }
    let threshold = match ignore_large_untracked_dirs {
        Some(t) => t,
        None => return None,
    };
    let n = dirs.len();
    let shown = if n > MAX_LISTED { MAX_LISTED } else { n };
    let ghost expected_shown = listed(dirs@).map_values(|d: LargeUntrackedDir| dir_part(d));
    let mut parts: Vec<String> = Vec::new();
    let mut i: usize = 0;
    while i < shown
        invariant
            n == dirs@.len(),
            shown <= n,
            shown == listed(dirs@).len(),
            expected_shown == listed(dirs@).map_values(|d: LargeUntrackedDir| dir_part(d)),
            i <= shown,
            texts(parts@) =~= expected_shown.take(i as int),
        decreases shown - i,
    {
        let dir = &dirs[i];
        let mut part = String::from_str(dir.path.as_str());
        part.append("（");
        let count = unsigned_to_string(dir.file_count as u64);
        part.append(count.as_str());
        part.append(" 个文件）");
        proof {
            assert(part@ == dir_part(dirs@[i as int]));
            assert(listed(dirs@)[i as int] == dirs@[i as int]);
        }
        let ghost before = parts@;
        parts.push(part);
        proof {
            assert(texts(parts@) =~= texts(before).push(dir_part(dirs@[i as int])));
            assert(expected_shown.take(i + 1) =~= expected_shown.take(i as int).push(
                expected_shown[i as int],
            ));
        }
        i = i + 1;
    }
    assert(expected_shown.take(shown as int) =~= expected_shown);
    if n > MAX_LISTED {
        let mut more = String::from_str("另有 ");
        let remaining = unsigned_to_string((n - MAX_LISTED) as u64);
        more.append(remaining.as_str());
        more.append(" 个");
        parts.push(more);
    }
    assert(texts(parts@) =~= dir_parts(dirs@));
    let joined_parts = join_strings(&parts, ", ");
    let mut message = String::from_str(DIRS_WARNING_HEAD);
    let threshold_text = signed_to_string(threshold);
    message.append(threshold_text.as_str());
    message.append(DIRS_WARNING_MIDDLE);
    message.append(joined_parts.as_str());
    message.append(DIRS_WARNING_TAIL);
    Some(message)
}


/// The warning about ignored large untracked files, or `None` when the file
/// threshold is switched off or no file was ignored.
pub fn format_ignored_untracked_files_warning(
    ignore_large_untracked_files: Option<i64>,
    report: &GhostSnapshotReport,
) -> (r: Option<String>)
    ensures
        r is Some <==> (ignore_large_untracked_files is Some
            && report.ignored_untracked_files@.len() > 0),
        r matches Some(m) ==> m@ == ignored_files_warning_text(
            ignore_large_untracked_files->0 as int,
            report.ignored_untracked_files@,
        ),
{
    let threshold = match ignore_large_untracked_files {
        Some(t) => t,
        None => return None,
    };
    let files = &report.ignored_untracked_files;
    if files.len() == 0 {
        return None;
    }
    let n = files.len();
    let shown = if n > MAX_LISTED { MAX_LISTED } else { n };
    let ghost expected_shown = listed(files@).map_values(|f: IgnoredUntrackedFile| file_part(f));
    let mut parts: Vec<String> = Vec::new();
    let mut i: usize = 0;
    while i < shown
        invariant
            n == files@.len(),
            shown <= n,
            shown == listed(files@).len(),
            expected_shown == listed(files@).map_values(|f: IgnoredUntrackedFile| file_part(f)),
            i <= shown,
            texts(parts@) =~= expected_shown.take(i as int),
        decreases shown - i,
    {
        let file = &files[i];
        let mut part = String::from_str(file.path.as_str());
        part.append(" (");
        let size = format_bytes(file.byte_size);
        part.append(size.as_str());
        part.append(")");
        proof {
            assert(part@ == file_part(files@[i as int]));
            assert(listed(files@)[i as int] == files@[i as int]);
        }
        let ghost before = parts@;
        parts.push(part);
        proof {
            assert(texts(parts@) =~= texts(before).push(file_part(files@[i as int])));
            assert(expected_shown.take(i + 1) =~= expected_shown.take(i as int).push(
                expected_shown[i as int],
            ));
        }
        i = i + 1;
    }
    assert(expected_shown.take(shown as int) =~= expected_shown);
    if n > MAX_LISTED {
        let mut more = unsigned_to_string((n - MAX_LISTED) as u64);
        more.append(" more");
        parts.push(more);
    }
    assert(texts(parts@) =~= file_parts(files@));
    let joined_parts = join_strings(&parts, ", ");
    let mut message = String::from_str(FILES_WARNING_HEAD);
    let threshold_text = format_bytes(threshold);
    message.append(threshold_text.as_str());
    message.append(FILES_WARNING_MIDDLE);
    message.append(joined_parts.as_str());
    message.append(FILES_WARNING_TAIL);
    Some(message)
}

/// The warnings owed for a snapshot report: the directory warning, if any,
/// then the file warning, if any.
pub open spec fn snapshot_warning_texts(
    ignore_large_untracked_files: Option<i64>,
    ignore_large_untracked_dirs: Option<i64>,
    report: GhostSnapshotReport,
) -> Seq<Seq<char>> {
    let dirs = report.large_untracked_dirs@;
    let files = report.ignored_untracked_files@;
    let first: Seq<Seq<char>> = if dirs.len() > 0 && ignore_large_untracked_dirs is Some {
        seq![large_untracked_warning_text(ignore_large_untracked_dirs->0 as int, dirs)]
    } else {
        Seq::empty()
    };
    if files.len() > 0 && ignore_large_untracked_files is Some {
        first.push(ignored_files_warning_text(ignore_large_untracked_files->0 as int, files))
    } else {
        first
    }
}

/// All warnings for a snapshot report, directories first.
pub fn format_snapshot_warnings(
    ignore_large_untracked_files: Option<i64>,
    ignore_large_untracked_dirs: Option<i64>,
    report: &GhostSnapshotReport,
) -> (r: Vec<String>)
    ensures
        texts(r@) == snapshot_warning_texts(
            ignore_large_untracked_files,
            ignore_large_untracked_dirs,
            *report,
        ),
{
    let mut warnings: Vec<String> = Vec::new();
    if let Some(message) = format_large_untracked_warning(ignore_large_untracked_dirs, report) {
        warnings.push(message);
    }
    if let Some(message) = format_ignored_untracked_files_warning(
        ignore_large_untracked_files,
        report,
    ) {
        warnings.push(message);
    }
    proof {
        assert(texts(warnings@) =~= snapshot_warning_texts(
            ignore_large_untracked_files,
            ignore_large_untracked_dirs,
            *report,
        ));
    }
    warnings
}


/// How long a snapshot may run before the user is warned that it is slow, in seconds.
pub const SNAPSHOT_WARNING_THRESHOLD_SECS: u64 = 240;

/// The warning sent when a snapshot runs longer than the threshold.
pub const SLOW_SNAPSHOT_WARNING: &'static str = "仓库快照耗时超出预期。大量未跟踪或被忽略的文件会拖慢快照；可以考虑将大文件或目录加入 `.gitignore`，或在配置中禁用 `undo`。";

pub const PANIC_NOTICE_HEAD: &'static str = "ghost snapshot 发生 panic，已禁用快照：";

pub const PANIC_NOTICE_TAIL: &'static str = "。";

/// How the snapshot work ended.
#[derive(Clone, Debug, PartialEq, Eq)]
pub enum SnapshotOutcome {
    /// The snapshot was cancelled before it finished.
    Cancelled,
    /// A ghost commit was made; the report tells what it left out.
    Captured(GhostSnapshotReport),
    /// The working directory is not a Git repository.
    NotAGitRepository,
    /// The Git tooling failed for another reason.
    Failed,
    /// The blocking snapshot work panicked; the text is the failure as displayed.
    Panicked(String),
}

/// What the snapshot task does after the snapshot work has ended.
#[derive(Clone, Debug, PartialEq, Eq)]
pub enum SnapshotAction {
    /// Send a warning event with this message.
    Warn(String),
    /// Record the ghost commit in the conversation history.
    RecordGhostCommit,
    /// Send a background notice with this message.
    NotifyBackground(String),
    /// Send the warning that the snapshot is slow (`SLOW_SNAPSHOT_WARNING`).
    WarnSlowSnapshot,
    /// Set the tool-call gate ready, so that tool calls may proceed.
    MarkGateReady,
}

/// A `SnapshotAction` with its texts as character sequences.
pub enum SnapshotActionView {
    Warn(Seq<char>),
    RecordGhostCommit,
    NotifyBackground(Seq<char>),
    WarnSlowSnapshot,
    MarkGateReady,
}

impl View for SnapshotAction {
    type V = SnapshotActionView;

    open spec fn view(&self) -> SnapshotActionView {
        match self {
            SnapshotAction::Warn(m) => SnapshotActionView::Warn(m@),
            SnapshotAction::RecordGhostCommit => SnapshotActionView::RecordGhostCommit,
            SnapshotAction::NotifyBackground(m) => SnapshotActionView::NotifyBackground(m@),
            SnapshotAction::WarnSlowSnapshot => SnapshotActionView::WarnSlowSnapshot,
            SnapshotAction::MarkGateReady => SnapshotActionView::MarkGateReady,
        }
    }
}

/// The notice sent when the snapshot work panicked with `failure`.
pub open spec fn panic_notice_text(failure: Seq<char>) -> Seq<char> {
    PANIC_NOTICE_HEAD@ + failure + PANIC_NOTICE_TAIL@
}

/// The actions owed once the snapshot work has ended: after a capture, the
/// report's warnings (when warnings are enabled) and then the recording of the
/// commit; after a panic, a background notice; else nothing.
pub open spec fn followup_actions(
    warnings_enabled: bool,
    ignore_large_untracked_files: Option<i64>,
    ignore_large_untracked_dirs: Option<i64>,
    outcome: SnapshotOutcome,
) -> Seq<SnapshotActionView> {
    match outcome {
        SnapshotOutcome::Captured(report) => {
            let warnings = if warnings_enabled {
                snapshot_warning_texts(
                    ignore_large_untracked_files,
                    ignore_large_untracked_dirs,
                    report,
                ).map_values(|m: Seq<char>| SnapshotActionView::Warn(m))
            } else {
                Seq::empty()
            };
            warnings.push(SnapshotActionView::RecordGhostCommit)
        },
        SnapshotOutcome::Panicked(failure) => seq![
            SnapshotActionView::NotifyBackground(panic_notice_text(failure@)),
        ],
        _ => Seq::empty(),
    }
}

/// The view of a list of actions.
pub open spec fn action_views(v: Seq<SnapshotAction>) -> Seq<SnapshotActionView> {
    v.map_values(|a: SnapshotAction| a@)
}

/// Decides what the snapshot task does once the snapshot work has ended.
pub fn snapshot_followup(
    warnings_enabled: bool,
    ignore_large_untracked_files: Option<i64>,
    ignore_large_untracked_dirs: Option<i64>,
    outcome: &SnapshotOutcome,
) -> (r: Vec<SnapshotAction>)
    ensures
        action_views(r@) == followup_actions(
            warnings_enabled,
            ignore_large_untracked_files,
            ignore_large_untracked_dirs,
            *outcome,
        ),
{
    let mut actions: Vec<SnapshotAction> = Vec::new();
    match outcome {
        SnapshotOutcome::Captured(report) => {
            if warnings_enabled {
                let warnings = format_snapshot_warnings(
                    ignore_large_untracked_files,
                    ignore_large_untracked_dirs,
                    report,
                );
                let ghost expected = texts(warnings@).map_values(
                    |m: Seq<char>| SnapshotActionView::Warn(m),
                );
                let n = warnings.len();
                let mut i: usize = 0;
                while i < n
                    invariant
                        n == warnings@.len(),
                        i <= n,
                        expected == texts(warnings@).map_values(
                            |m: Seq<char>| SnapshotActionView::Warn(m),
                        ),
                        action_views(actions@) =~= expected.take(i as int),
                    decreases n - i,
                {
                    let message = warnings[i].clone();
                    let ghost before = actions@;
                    actions.push(SnapshotAction::Warn(message));
                    proof {
                        assert(action_views(actions@) =~= action_views(before).push(
                            SnapshotActionView::Warn(warnings@[i as int]@),
                        ));
                        assert(expected.take(i + 1) =~= expected.take(i as int).push(
                            expected[i as int],
                        ));
                    }
                    i = i + 1;
                }
                assert(expected.take(n as int) =~= expected);
            }
            let ghost before = actions@;
            actions.push(SnapshotAction::RecordGhostCommit);
            assert(action_views(actions@) =~= action_views(before).push(
                SnapshotActionView::RecordGhostCommit,
            ));
        },
        SnapshotOutcome::Panicked(failure) => {
            let mut notice = String::from_str(PANIC_NOTICE_HEAD);
            notice.append(failure.as_str());
            notice.append(PANIC_NOTICE_TAIL);
            actions.push(SnapshotAction::NotifyBackground(notice));
            assert(action_views(actions@) =~= seq![
                SnapshotActionView::NotifyBackground(panic_notice_text(failure@)),
            ]);
        },
        _ => {
            assert(action_views(actions@) =~= Seq::<SnapshotActionView>::empty());
        },
    }
    actions
}


/// Where the snapshot task stands.
#[derive(Clone, Copy, Debug, PartialEq, Eq, Structural)]
pub struct SnapshotTaskState {
    /// Whether the task sends warnings.
    pub warnings_enabled: bool,
    /// Whether the slow-snapshot timer still runs.
    pub timer_pending: bool,
    /// Whether the snapshot work has ended (or was cancelled).
    pub finished: bool,
}

/// What the snapshot task learns while it waits.
#[derive(Clone, Debug, PartialEq, Eq)]
pub enum SnapshotEvent {
    /// `SNAPSHOT_WARNING_THRESHOLD_SECS` have passed since the task started.
    TimerElapsed,
    /// The snapshot work ended, or was cancelled, this way.
    Ended(SnapshotOutcome),
}

/// The state in which the task starts: the timer runs exactly when warnings
/// are enabled.
pub open spec fn initial_task_state(disable_warnings: bool) -> SnapshotTaskState {
    SnapshotTaskState { warnings_enabled: !disable_warnings, timer_pending: !disable_warnings, finished: false }
}

/// The state after `event`.
pub open spec fn next_task_state(state: SnapshotTaskState, event: SnapshotEvent) -> SnapshotTaskState {
    if state.finished {
        state
    } else {
        match event {
            SnapshotEvent::TimerElapsed => SnapshotTaskState { timer_pending: false, ..state },
            SnapshotEvent::Ended(_) => SnapshotTaskState { timer_pending: false, finished: true, ..state },
        }
    }
}

/// What the task does on `event`: when the timer fires while it still runs,
/// the slow-snapshot warning; when the work ends, the follow-up of its
/// outcome and then setting the tool-call gate ready; after the end, nothing.
pub open spec fn task_step_actions(
    state: SnapshotTaskState,
    ignore_large_untracked_files: Option<i64>,
    ignore_large_untracked_dirs: Option<i64>,
    event: SnapshotEvent,
) -> Seq<SnapshotActionView> {
    if state.finished {
        Seq::empty()
    } else {
        match event {
            SnapshotEvent::TimerElapsed => if state.timer_pending {
                seq![SnapshotActionView::WarnSlowSnapshot]
            } else {
                Seq::empty()
            },
            SnapshotEvent::Ended(outcome) => followup_actions(
                state.warnings_enabled,
                ignore_large_untracked_files,
                ignore_large_untracked_dirs,
                outcome,
            ).push(SnapshotActionView::MarkGateReady),
        }
    }
}

/// The state in which the snapshot task starts.
pub fn start_snapshot_task(disable_warnings: bool) -> (s: SnapshotTaskState)
    ensures
        s == initial_task_state(disable_warnings),
{
    SnapshotTaskState { warnings_enabled: !disable_warnings, timer_pending: !disable_warnings, finished: false }
}

/// Advances the snapshot task by `event` and says what it does.
pub fn snapshot_task_step(
    state: &mut SnapshotTaskState,
    ignore_large_untracked_files: Option<i64>,
    ignore_large_untracked_dirs: Option<i64>,
    event: &SnapshotEvent,
) -> (r: Vec<SnapshotAction>)
    ensures
        *final(state) == next_task_state(*old(state), *event),
        action_views(r@) == task_step_actions(
            *old(state),
            ignore_large_untracked_files,
            ignore_large_untracked_dirs,
            *event,
        ),
{
    let mut actions: Vec<SnapshotAction> = Vec::new();
    if state.finished {
        assert(action_views(actions@) =~= Seq::<SnapshotActionView>::empty());
        return actions;
    }
    match event {
        SnapshotEvent::TimerElapsed => {
            if state.timer_pending {
                actions.push(SnapshotAction::WarnSlowSnapshot);
            }
            state.timer_pending = false;
            assert(action_views(actions@) =~= task_step_actions(
                *old(state),
                ignore_large_untracked_files,
                ignore_large_untracked_dirs,
                *event,
            ));
        },
        SnapshotEvent::Ended(outcome) => {
            actions = snapshot_followup(
                state.warnings_enabled,
                ignore_large_untracked_files,
                ignore_large_untracked_dirs,
                outcome,
            );
            let ghost before = actions@;
            actions.push(SnapshotAction::MarkGateReady);
            assert(action_views(actions@) =~= action_views(before).push(
                SnapshotActionView::MarkGateReady,
            ));
            state.timer_pending = false;
            state.finished = true;
        },
    }
    actions
}

/// The state after the events `events`, from `start`.
pub open spec fn task_state_after(start: SnapshotTaskState, events: Seq<SnapshotEvent>) -> SnapshotTaskState
    decreases events.len(),
{
    if events.len() == 0 {
        start
    } else {
        next_task_state(task_state_after(start, events.drop_last()), events.last())
    }
}

/// Everything the task does on the events `events`, from `start`.
pub open spec fn task_actions_after(
    start: SnapshotTaskState,
    ignore_large_untracked_files: Option<i64>,
    ignore_large_untracked_dirs: Option<i64>,
    events: Seq<SnapshotEvent>,
) -> Seq<SnapshotActionView>
    decreases events.len(),
{
    if events.len() == 0 {
        Seq::empty()
    } else {
        task_actions_after(
            start,
            ignore_large_untracked_files,
            ignore_large_untracked_dirs,
            events.drop_last(),
        ) + task_step_actions(
            task_state_after(start, events.drop_last()),
            ignore_large_untracked_files,
            ignore_large_untracked_dirs,
            events.last(),
        )
    }
}

/// Whether the work ended somewhere in `events`.
pub open spec fn has_ended(events: Seq<SnapshotEvent>) -> bool
    decreases events.len(),
{
    events.len() > 0 && (has_ended(events.drop_last()) || events.last() is Ended)
}

/// Whether the timer fired in `events` before the work ended.
pub open spec fn timer_fired_first(events: Seq<SnapshotEvent>) -> bool
    decreases events.len(),
{
    events.len() > 0 && (timer_fired_first(events.drop_last()) || (events.last() is TimerElapsed
        && !has_ended(events.drop_last())))
}

/// Whether the timer fired anywhere in `events`.
pub open spec fn timer_fired(events: Seq<SnapshotEvent>) -> bool
    decreases events.len(),
{
    events.len() > 0 && (timer_fired(events.drop_last()) || events.last() is TimerElapsed)
}

/// How many actions of `s` are `a`.
pub open spec fn count_action(s: Seq<SnapshotActionView>, a: SnapshotActionView) -> nat
    decreases s.len(),
{
    if s.len() == 0 {
        0
    } else {
        count_action(s.drop_last(), a) + if s.last() == a {
            1nat
        } else {
            0nat
        }
    }
}

proof fn lemma_count_action_add(s: Seq<SnapshotActionView>, t: Seq<SnapshotActionView>, a: SnapshotActionView)
    ensures
        count_action(s + t, a) == count_action(s, a) + count_action(t, a),
    decreases t.len(),
{
    if t.len() > 0 {
        assert((s + t).drop_last() =~= s + t.drop_last());
        lemma_count_action_add(s, t.drop_last(), a);
    } else {
        assert(s + t =~= s);
    }
}

proof fn lemma_count_action_absent(s: Seq<SnapshotActionView>, a: SnapshotActionView)
    requires
        forall|i: int| 0 <= i < s.len() ==> s[i] != a,
    ensures
        count_action(s, a) == 0,
    decreases s.len(),
{
    if s.len() > 0 {
        lemma_count_action_absent(s.drop_last(), a);
    }
}

/// The follow-up of an outcome neither warns of slowness nor sets the tool-call gate ready.
proof fn lemma_followup_has_no_task_actions(
    warnings_enabled: bool,
    ignore_large_untracked_files: Option<i64>,
    ignore_large_untracked_dirs: Option<i64>,
    outcome: SnapshotOutcome,
)
    ensures
        count_action(
            followup_actions(warnings_enabled, ignore_large_untracked_files, ignore_large_untracked_dirs, outcome),
            SnapshotActionView::WarnSlowSnapshot,
        ) == 0,
        count_action(
            followup_actions(warnings_enabled, ignore_large_untracked_files, ignore_large_untracked_dirs, outcome),
            SnapshotActionView::MarkGateReady,
        ) == 0,
{
    let f = followup_actions(warnings_enabled, ignore_large_untracked_files, ignore_large_untracked_dirs, outcome);
    assert forall|i: int| 0 <= i < f.len() implies !(f[i] is WarnSlowSnapshot) && !(f[i] is MarkGateReady) by {
        match outcome {
            SnapshotOutcome::Captured(report) => {
                let w = if warnings_enabled {
                    snapshot_warning_texts(
                        ignore_large_untracked_files,
                        ignore_large_untracked_dirs,
                        report,
                    ).map_values(|m: Seq<char>| SnapshotActionView::Warn(m))
                } else {
                    Seq::empty()
                };
                if i < w.len() {
                    assert(f[i] == w[i]);
                }
            },
            _ => {},
        }
    }
    lemma_count_action_absent(f, SnapshotActionView::WarnSlowSnapshot);
    lemma_count_action_absent(f, SnapshotActionView::MarkGateReady);
}

/// Over any events, from the start: the tool-call gate is set ready exactly once if
/// the work ended and never otherwise; the slow-snapshot warning is sent
/// exactly once if warnings are enabled and the timer fired before the work
/// ended, and never otherwise.
pub proof fn lemma_snapshot_task_marks_gate_once_and_warns_at_most_once(
    disable_warnings: bool,
    ignore_large_untracked_files: Option<i64>,
    ignore_large_untracked_dirs: Option<i64>,
    events: Seq<SnapshotEvent>,
)
    ensures
        ({
            let acts = task_actions_after(
                initial_task_state(disable_warnings),
                ignore_large_untracked_files,
                ignore_large_untracked_dirs,
                events,
            );
            &&& count_action(acts, SnapshotActionView::MarkGateReady) == if has_ended(events) {
                1nat
            } else {
                0nat
            }
            &&& count_action(acts, SnapshotActionView::WarnSlowSnapshot) == if !disable_warnings
                && timer_fired_first(events) {
                1nat
            } else {
                0nat
            }
        }),
    decreases events.len(),
{
    let start = initial_task_state(disable_warnings);
    let state = task_state_after(start, events);
    lemma_task_state_after(disable_warnings, events);
    if events.len() > 0 {
        let prefix = events.drop_last();
        let e = events.last();
        lemma_snapshot_task_marks_gate_once_and_warns_at_most_once(
            disable_warnings,
            ignore_large_untracked_files,
            ignore_large_untracked_dirs,
            prefix,
        );
        lemma_task_state_after(disable_warnings, prefix);
        let s = task_state_after(start, prefix);
        let before = task_actions_after(start, ignore_large_untracked_files, ignore_large_untracked_dirs, prefix);
        let step = task_step_actions(s, ignore_large_untracked_files, ignore_large_untracked_dirs, e);
        lemma_count_action_add(before, step, SnapshotActionView::MarkGateReady);
        lemma_count_action_add(before, step, SnapshotActionView::WarnSlowSnapshot);
        if !s.finished {
            match e {
                SnapshotEvent::Ended(outcome) => {
                    let f = followup_actions(
                        s.warnings_enabled,
                        ignore_large_untracked_files,
                        ignore_large_untracked_dirs,
                        outcome,
                    );
                    lemma_followup_has_no_task_actions(
                        s.warnings_enabled,
                        ignore_large_untracked_files,
                        ignore_large_untracked_dirs,
                        outcome,
                    );
                    assert(f.push(SnapshotActionView::MarkGateReady).drop_last() =~= f);
                },
                SnapshotEvent::TimerElapsed => {
                    if s.timer_pending {
                        assert(seq![SnapshotActionView::WarnSlowSnapshot].drop_last() =~= Seq::<
                            SnapshotActionView,
                        >::empty());
                    }
                },
            }
        }
    }
}

/// What the state says, from the start, after the events `events`.
proof fn lemma_task_state_after(disable_warnings: bool, events: Seq<SnapshotEvent>)
    ensures
        ({
            let s = task_state_after(initial_task_state(disable_warnings), events);
            &&& s.warnings_enabled == !disable_warnings
            &&& s.finished == has_ended(events)
            &&& s.timer_pending == (!disable_warnings && !has_ended(events) && !timer_fired(events))
            &&& (!has_ended(events) ==> timer_fired_first(events) == timer_fired(events))
        }),
    decreases events.len(),
{
    if events.len() > 0 {
        lemma_task_state_after(disable_warnings, events.drop_last());
    }
}

} // verus!
