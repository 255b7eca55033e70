//! Arguments of the non-interactive `exec` command line.

use vstd::prelude::*;

verus! {

/// A file-system path, carried through unchanged.
#[verifier::external_type_specification]
#[verifier::external_body]
pub struct ExPathBuf(std::path::PathBuf);

/// The subcommand to run; without one, a new non-interactive session runs.
#[derive(Debug)]
pub enum Command {
    /// Resume an earlier session by id, or the most recent one with `--last`.
    Resume(ResumeArgs),
    /// Run a code review of the current repository.
    Review(ReviewArgs),
}

/// The arguments of `resume` as the command line gives them, before the
/// positional argument is interpreted.
#[derive(Debug)]
pub struct ResumeArgsRaw {
    /// The first positional argument: a session id (a UUID) or thread name.
    pub session_id: Option<String>,
    /// `--last`: resume the most recently recorded session.
    pub last: bool,
    /// `--all`: show every session, not only those of the working directory.
    pub all: bool,
    /// `--image`: images attached to the prompt sent after resuming.
    pub images: Vec<std::path::PathBuf>,
    /// The second positional argument: the prompt sent after resuming.
    pub prompt: Option<String>,
}

/// The arguments of `resume`.
#[derive(Debug)]
pub struct ResumeArgs {
    /// Session id (a UUID) or thread name; when it parses as a UUID it is
    /// taken as one. Without it, `--last` picks the most recent session.
    pub session_id: Option<String>,
    /// Resume the most recently recorded session without naming it.
    pub last: bool,
    /// Show every session (no filtering by working directory).
    pub all: bool,
    /// Images attached to the prompt sent after resuming.
    pub images: Vec<std::path::PathBuf>,
    /// The prompt sent after resuming; `-` reads it from stdin.
    pub prompt: Option<String>,
}

/// How the raw arguments are read: with `--last` and no prompt, the single
/// positional argument is the prompt, not a session id.
pub open spec fn resume_args_of(raw: ResumeArgsRaw) -> ResumeArgs {
    if raw.last && raw.prompt is None {
        ResumeArgs { session_id: None, last: raw.last, all: raw.all, images: raw.images, prompt: raw.session_id }
    } else {
        ResumeArgs {
            session_id: raw.session_id,
            last: raw.last,
            all: raw.all,
            images: raw.images,
            prompt: raw.prompt,
        }
    }
}

impl From<ResumeArgsRaw> for ResumeArgs {
    fn from(raw: ResumeArgsRaw) -> (r: ResumeArgs) {
        let (session_id, prompt) = if raw.last && raw.prompt.is_none() {
            (None, raw.session_id)
        } else {
            (raw.session_id, raw.prompt)
        };
        ResumeArgs { session_id, last: raw.last, all: raw.all, images: raw.images, prompt }
    }
}

impl vstd::std_specs::convert::FromSpecImpl<ResumeArgsRaw> for ResumeArgs {
    open spec fn obeys_from_spec() -> bool {
        true
    }

    open spec fn from_spec(v: ResumeArgsRaw) -> ResumeArgs {
        resume_args_of(v)
    }
}

/// The prompt that `resume` sends: the prompt argument, or, with `--last`,
/// the positional argument when no prompt was given.
pub open spec fn effective_prompt(args: ResumeArgs) -> Option<String> {
    match args.prompt {
        Some(p) => Some(p),
        None => if args.last {
            args.session_id
        } else {
            None
        },
    }
}

/// Reading the raw arguments keeps the flags and images, and never loses the
/// prompt: the prompt sent after resuming is the raw prompt, or, with
/// `--last`, the lone positional argument. With `--last` and a single
/// positional argument, no session id remains.
pub proof fn lemma_resume_prompt_kept(raw: ResumeArgsRaw)
    ensures
        resume_args_of(raw).last == raw.last,
        resume_args_of(raw).all == raw.all,
        resume_args_of(raw).images == raw.images,
        effective_prompt(resume_args_of(raw)) == (match raw.prompt {
            Some(p) => Some(p),
            None => if raw.last {
                raw.session_id
            } else {
                None
            },
        }),
        raw.last && raw.prompt is None ==> resume_args_of(raw).session_id is None,
        raw.last && raw.prompt is None ==> resume_args_of(raw).prompt == raw.session_id,
        !(raw.last && raw.prompt is None) ==> resume_args_of(raw).session_id == raw.session_id,
        !(raw.last && raw.prompt is None) ==> resume_args_of(raw).prompt == raw.prompt,
{
}

/// The arguments of `review`.
#[derive(Debug)]
pub struct ReviewArgs {
    /// Review staged, unstaged and untracked changes.
    pub uncommitted: bool,
    /// Review against this base branch.
    pub base: Option<String>,
    /// Review the changes that this commit introduced.
    pub commit: Option<String>,
    /// Title of the commit, shown in the review summary.
    pub commit_title: Option<String>,
    /// Custom review instructions; `-` reads them from stdin.
    pub prompt: Option<String>,
}

/// The color setting of the output.
#[derive(Clone, Copy, Debug, PartialEq, Eq, Structural)]
pub enum Color {
    Always,
    Never,
    Auto,
}

impl Default for Color {
    fn default() -> (r: Color)
        ensures
            r == Color::Auto,
    {
        Color::Auto
    }
}

} // verus!
