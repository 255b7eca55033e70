//! Locating the binaries that a test run built: the environment variables
//! that name them, the decisions of the lookup, and the normal form of runfile
//! paths.

use vstd::prelude::*;

verus! {

/// An I/O error, carried through unchanged.
#[verifier::external_type_specification]
#[verifier::external_body]
pub struct ExIoError(std::io::Error);

/// Why a binary could not be located.
#[derive(Debug)]
pub enum CargoBinError {
    /// The current executable could not be read.
    CurrentExe { source: std::io::Error },
    /// The current directory could not be read.
    CurrentDir { source: std::io::Error },
    /// The variable (or lookup) `key` named `path`, which does not exist.
    ResolvedPathDoesNotExist { key: String, path: std::path::PathBuf },
    /// No variable named the binary, and the fallback lookup failed too.
    NotFound { name: String, env_keys: Vec<String>, fallback: String },
}

/// The prefix of the variables through which Cargo names built binaries.
pub const ENV_KEY_PREFIX: &'static str = "CARGO_BIN_EXE_";

/// `name` with every `-` replaced by `_`.
pub open spec fn underscored(name: Seq<char>) -> Seq<char> {
    name.map_values(|c: char| if c == '-' { '_' } else { c })
}

/// The variables that may name the binary `name`, in the order they are
/// tried: `CARGO_BIN_EXE_<name>`, then, when `name` holds a dash, the same
/// with dashes replaced by underscores (as Cargo writes target names there).
pub open spec fn env_keys(name: Seq<char>) -> Seq<Seq<char>> {
    if underscored(name) != name {
        seq![ENV_KEY_PREFIX@ + name, ENV_KEY_PREFIX@ + underscored(name)]
    } else {
        seq![ENV_KEY_PREFIX@ + name]
    }
}

/// The texts of a list of strings.
pub open spec fn key_texts(v: Seq<String>) -> Seq<Seq<char>> {
    v.map_values(|s: String| s@)
}

/// The variables that may name the binary `name`, in the order they are tried.
pub fn cargo_bin_env_keys(name: &str) -> (keys: Vec<String>)
    ensures
        key_texts(keys@) == env_keys(name@),
{
    let n = name.unicode_len();
    let mut underscore_name = String::new();
    let mut changed = false;
    let mut i: usize = 0;
    while i < n
        invariant
            n == name@.len(),
            i <= n,
            underscore_name@ == underscored(name@.take(i as int)),
            changed == exists|j: int| 0 <= j < i && name@[j] == '-',
        decreases n - i,
    {
        let c = name.get_char(i);
        proof {
            reveal_strlit("_");
        }
        if c == '-' {
            underscore_name.append("_");
            changed = true;
        } else {
            underscore_name.append(name.substring_char(i, i + 1));
        }
        assert(underscored(name@.take(i + 1)) =~= underscored(name@.take(i as int)).push(
            if c == '-' { '_' } else { c },
        ));
        i = i + 1;
    }
    assert(name@.take(n as int) =~= name@);
    proof {
        if changed {
            let j = choose|j: int| 0 <= j < n && name@[j] == '-';
            assert(underscored(name@)[j] != name@[j]);
        } else {
            assert(underscored(name@) =~= name@);
        }
    }
    let mut keys: Vec<String> = Vec::new();
    let mut first = String::from_str(ENV_KEY_PREFIX);
    first.append(name);
    keys.push(first);
    if changed {
        let mut second = String::from_str(ENV_KEY_PREFIX);
        second.append(underscore_name.as_str());
        keys.push(second);
    }
    assert(key_texts(keys@) =~= env_keys(name@));
    keys
}


/// Whether std's `Path::is_absolute` holds of `p`; it depends on the path alone.
pub uninterp spec fn path_is_absolute(p: std::path::PathBuf) -> bool;

/// `Path::is_absolute` of std. The contract claims only that the answer is the
/// one `path_is_absolute` names for this path.
#[verifier::external_body]
fn is_absolute(p: &std::path::PathBuf) -> (r: bool)
    ensures
        r == path_is_absolute(*p),
{
    p.is_absolute()
}

/// What the environment and the disk tell of the value of a `CARGO_BIN_EXE_*`
/// variable.
#[derive(Debug)]
pub enum EnvBinLookup {
    /// Runfiles are in use: `located` is where they place the value, if
    /// anywhere, and `exists` whether that path is on disk.
    Runfiles { located: Option<std::path::PathBuf>, exists: bool },
    /// Runfiles are not in use; `exists` tells whether the value, as a path,
    /// is on disk.
    Direct { exists: bool },
}

/// The binary that the value `raw` of a variable leads to: with runfiles, the
/// located runfile when it is on disk; without, `raw` itself when it is an
/// absolute path on disk.
pub open spec fn env_bin_found(raw: std::path::PathBuf, lookup: EnvBinLookup) -> Option<
    std::path::PathBuf,
> {
    match lookup {
        EnvBinLookup::Runfiles { located: Some(p), exists: true } => Some(p),
        EnvBinLookup::Direct { exists: true } => if path_is_absolute(raw) {
            Some(raw)
        } else {
            None
        },
        _ => None,
    }
}

/// A variable's value leads to a binary only through a path reported to be on
/// disk: with runfiles, the located runfile when it exists; without, the value
/// itself when it is absolute and exists. A path reported missing never does.
pub proof fn lemma_env_bin_found_only_if_it_exists(raw: std::path::PathBuf, lookup: EnvBinLookup)
    ensures
        env_bin_found(raw, lookup) matches Some(p) ==> (
        (lookup matches EnvBinLookup::Runfiles { located: Some(q), exists: true } && p == q)
            || (lookup matches EnvBinLookup::Direct { exists: true } && path_is_absolute(raw) && p == raw)),
        lookup matches EnvBinLookup::Direct { exists: false } ==> env_bin_found(raw, lookup) is None,
        lookup matches EnvBinLookup::Runfiles { exists: false, .. } ==> env_bin_found(raw, lookup) is None,
        lookup matches EnvBinLookup::Runfiles { located: None, .. } ==> env_bin_found(raw, lookup) is None,
        (lookup matches EnvBinLookup::Direct { exists: true } && path_is_absolute(raw)) ==> env_bin_found(raw, lookup) == Some(raw),
        lookup matches EnvBinLookup::Runfiles { located: Some(q), exists: true } ==> env_bin_found(raw, lookup) == Some(q),
{
}

/// Resolves the value `raw` of the variable `key`, given what the environment
/// and the disk tell of it: the binary it leads to, or else the error that the
/// variable named `raw`, which does not exist.
pub fn resolve_bin_from_env(
    key: &str,
    raw: std::path::PathBuf,
    lookup: EnvBinLookup,
) -> (r: Result<std::path::PathBuf, CargoBinError>)
    ensures
        env_bin_found(raw, lookup) matches Some(p) ==> r == Ok::<std::path::PathBuf, CargoBinError>(p),
        env_bin_found(raw, lookup) is None ==> (r matches Err(
            CargoBinError::ResolvedPathDoesNotExist { key: k, path: p },
        ) && k@ == key@ && p == raw),
{
    let found = match lookup {
        EnvBinLookup::Runfiles { located, exists } => if exists {
            located
        } else {
            None
        },
        EnvBinLookup::Direct { exists } => if exists && is_absolute(&raw) {
            return Ok(raw);
        } else {
            None
        },
    };
    match found {
        Some(path) => Ok(path),
        None => Err(CargoBinError::ResolvedPathDoesNotExist { key: String::from_str(key), path: raw }),
    }
}

/// What asking assert_cmd for the binary gave on one attempt.
#[derive(Debug)]
pub enum CargoBinLookup {
    /// assert_cmd named `path`; `exists` tells whether it is on disk.
    Found { path: std::path::PathBuf, exists: bool },
    /// assert_cmd failed; `error` is its error as displayed.
    Failed { error: String },
}

/// What the lookup does next.
#[derive(Debug)]
pub enum CargoBinStep {
    /// The lookup is over, with this result.
    Done(Result<std::path::PathBuf, CargoBinError>),
    /// Build the binary with `cargo build`, then ask assert_cmd again.
    BuildAndRetry,
}

/// The lookup key reported when the path that assert_cmd named does not exist.
pub const ASSERT_CMD_KEY: &'static str = "assert_cmd::Command::cargo_bin";

pub const FALLBACK_FAILED: &'static str = "assert_cmd fallback failed: ";

/// The note on the fallback build added to the lookup key, for a build that
/// ended as `build` (`None`: no build was tried; `Err`: the failure as displayed).
pub open spec fn key_build_note(build: Option<Result<(), String>>) -> Seq<char> {
    match build {
        Some(Ok(())) => " (cargo build fallback succeeded)"@,
        Some(Err(e)) => " (cargo build fallback failed: "@ + e@ + ")"@,
        None => Seq::empty(),
    }
}

/// The note on the fallback build added to the fallback failure.
pub open spec fn fallback_build_note(build: Option<Result<(), String>>) -> Seq<char> {
    match build {
        Some(Ok(())) => "; cargo build fallback succeeded"@,
        Some(Err(e)) => "; cargo build fallback failed: "@ + e@,
        None => Seq::empty(),
    }
}

fn format_key_build_note(build: &Option<Result<(), String>>) -> (s: String)
    ensures
        s@ == key_build_note(*build),
{
    match build {
        Some(Ok(())) => String::from_str(" (cargo build fallback succeeded)"),
        Some(Err(e)) => {
            let mut s = String::from_str(" (cargo build fallback failed: ");
            s.append(e.as_str());
            s.append(")");
            s
        },
        None => String::new(),
    }
}

fn format_fallback_build_note(build: &Option<Result<(), String>>) -> (s: String)
    ensures
        s@ == fallback_build_note(*build),
{
    match build {
        Some(Ok(())) => String::from_str("; cargo build fallback succeeded"),
        Some(Err(e)) => {
            let mut s = String::from_str("; cargo build fallback failed: ");
            s.append(e.as_str());
            s
        },
        None => String::new(),
    }
}

/// Decides the next step of the lookup of the binary `name` after assert_cmd
/// answered `lookup` on attempt `attempt` (counted from 0): a path on disk
/// ends the lookup; on the first attempt, without runfiles, anything else
/// asks for a fallback build and a second attempt; otherwise the lookup ends
/// with an error that reports how the fallback build (`build`) ended.
pub fn cargo_bin_step(
    name: &str,
    env_keys: Vec<String>,
    attempt: u32,
    runfiles_available: bool,
    build: &Option<Result<(), String>>,
    lookup: CargoBinLookup,
) -> (step: CargoBinStep)
    ensures
        match lookup {
            CargoBinLookup::Found { path, exists: true } => step == CargoBinStep::Done(
                Ok::<std::path::PathBuf, CargoBinError>(path),
            ),
            CargoBinLookup::Found { path, exists: false } => if attempt == 0 && !runfiles_available {
                step is BuildAndRetry
            } else {
                step matches CargoBinStep::Done(
                    Err(CargoBinError::ResolvedPathDoesNotExist { key: k, path: p }),
                ) && k@ == ASSERT_CMD_KEY@ + key_build_note(*build) && p == path
            },
            CargoBinLookup::Failed { error } => if attempt == 0 && !runfiles_available {
                step is BuildAndRetry
            } else {
                step matches CargoBinStep::Done(
                    Err(CargoBinError::NotFound { name: n, env_keys: keys, fallback: f }),
                ) && n@ == name@ && keys == env_keys && f@ == FALLBACK_FAILED@ + error@
                    + fallback_build_note(*build)
            },
        },
{
    match lookup {
        CargoBinLookup::Found { path, exists } => {
            if exists {
                return CargoBinStep::Done(Ok(path));
            }
            if attempt == 0 && !runfiles_available {
                return CargoBinStep::BuildAndRetry;
            }
            let mut key = String::from_str(ASSERT_CMD_KEY);
            let note = format_key_build_note(build);
            key.append(note.as_str());
            CargoBinStep::Done(Err(CargoBinError::ResolvedPathDoesNotExist { key, path }))
        },
        CargoBinLookup::Failed { error } => {
            if attempt == 0 && !runfiles_available {
                return CargoBinStep::BuildAndRetry;
            }
            let mut fallback = String::from_str(FALLBACK_FAILED);
            fallback.append(error.as_str());
            let note = format_fallback_build_note(build);
            fallback.append(note.as_str());
            CargoBinStep::Done(
                Err(CargoBinError::NotFound { name: String::from_str(name), env_keys, fallback }),
            )
        },
    }
}

/// The path that std's `Path::join` makes of `base` and `tail`: `tail` pushed
/// onto `base`, replacing it when `tail` is absolute. It depends on the two
/// paths alone.
pub uninterp spec fn joined_path(base: std::path::PathBuf, tail: std::path::PathBuf) -> std::path::PathBuf;

/// `Path::join` of std. The contract claims only that the result is the one
/// that `joined_path` names for these two paths; what that path is, in
/// components, is left unsaid.
#[verifier::external_body]
fn join_path(base: &std::path::PathBuf, tail: &std::path::PathBuf) -> (r: std::path::PathBuf)
    ensures
        r == joined_path(*base, *tail),
{
    base.join(tail)
}

/// The path of a test resource under a Cargo build: `resource` joined onto the
/// package's manifest directory `manifest_dir`. It never fails.
pub fn resolve_cargo_runfile(
    manifest_dir: &std::path::PathBuf,
    resource: &std::path::PathBuf,
) -> (r: Result<std::path::PathBuf, std::io::Error>)
    ensures
        r matches Ok(p) && p == joined_path(*manifest_dir, *resource),
{
    Ok(join_path(manifest_dir, resource))
}

/// The path that std's `PathBuf::from` makes of the text `s`; it depends on
/// the text alone.
pub uninterp spec fn path_of_text(s: Seq<char>) -> std::path::PathBuf;

/// `PathBuf::from` of std on a string. The contract claims only that the
/// result is the one `path_of_text` names for this text.
#[verifier::external_body]
fn path_from_text(s: &str) -> (r: std::path::PathBuf)
    ensures
        r == path_of_text(s@),
{
    std::path::PathBuf::from(s)
}

/// The parent that std's `Path::parent` gives of `p` (`None` for a path that
/// ends in a root or prefix, or is empty); it depends on the path alone.
pub uninterp spec fn parent_of(p: std::path::PathBuf) -> Option<std::path::PathBuf>;

/// `Path::parent` of std, made owned. The contract claims only that the result
/// is the one `parent_of` names for this path.
#[verifier::external_body]
fn parent_path(p: &std::path::PathBuf) -> (r: Option<std::path::PathBuf>)
    ensures
        r == parent_of(*p),
{
    p.parent().map(|parent| parent.to_path_buf())
}

/// Something that was looked for is not there; `message` says what. Callers
/// report it as an I/O error of kind `NotFound` with this message.
#[derive(Debug, PartialEq, Eq)]
pub struct NotFoundError {
    pub message: String,
}

/// The message when the marker file has too few parent directories.
pub const MARKER_TOO_SHALLOW: &'static str = "repo_root.marker did not have expected parent depth";

/// The message when the Bazel package was not set at compile time.
pub const BAZEL_PACKAGE_UNSET: &'static str = "BAZEL_PACKAGE was not set at compile time";

/// The directory of the workspace, under the repository root, where the
/// binaries are built.
pub const WORKSPACE_DIR: &'static str = "codex-rs";

/// Where a relative program path that assert_cmd gave is looked for, in
/// order: under the current directory, then, when the repository root is
/// known, under its workspace directory and under the root itself.
pub open spec fn assert_cmd_candidate_paths(
    program: std::path::PathBuf,
    current_dir: std::path::PathBuf,
    repo_root: Option<std::path::PathBuf>,
) -> Seq<std::path::PathBuf> {
    let first = seq![joined_path(current_dir, program)];
    match repo_root {
        Some(root) => first + seq![
            joined_path(joined_path(root, path_of_text(WORKSPACE_DIR@)), program),
            joined_path(root, program),
        ],
        None => first,
    }
}

/// The places where a relative program path from assert_cmd is looked for,
/// in order.
pub fn assert_cmd_candidates(
    program: &std::path::PathBuf,
    current_dir: &std::path::PathBuf,
    repo_root: &Option<std::path::PathBuf>,
) -> (v: Vec<std::path::PathBuf>)
    ensures
        v@ == assert_cmd_candidate_paths(*program, *current_dir, *repo_root),
{
    let mut v: Vec<std::path::PathBuf> = Vec::new();
    v.push(join_path(current_dir, program));
    match repo_root {
        Some(root) => {
            let workspace = join_path(root, &path_from_text(WORKSPACE_DIR));
            v.push(join_path(&workspace, program));
            v.push(join_path(root, program));
        },
        None => {},
    }
    assert(v@ =~= assert_cmd_candidate_paths(*program, *current_dir, *repo_root));
    v
}

/// The first path that was found, or `fallback` when none was.
pub open spec fn first_found(found: Seq<Option<std::path::PathBuf>>, fallback: std::path::PathBuf) -> std::path::PathBuf
    decreases found.len(),
{
    if found.len() == 0 {
        fallback
    } else {
        match found[0] {
            Some(p) => p,
            None => first_found(found.drop_first(), fallback),
        }
    }
}

/// Resolves the program path that assert_cmd gave: an absolute path as it is;
/// otherwise, given the current directory and what was found on disk for each
/// candidate of `assert_cmd_candidates` in order, the first one found, or
/// else the candidate under the current directory. Reading the current
/// directory may have failed (`current_dir`), which is an error then.
pub fn resolve_assert_cmd_path(
    program: std::path::PathBuf,
    current_dir: Result<std::path::PathBuf, std::io::Error>,
    found: Vec<Option<std::path::PathBuf>>,
) -> (r: Result<std::path::PathBuf, CargoBinError>)
    ensures
        path_is_absolute(program) ==> r == Ok::<std::path::PathBuf, CargoBinError>(program),
        !path_is_absolute(program) ==> match current_dir {
            Err(e) => r matches Err(CargoBinError::CurrentDir { source }) && source == e,
            Ok(dir) => r == Ok::<std::path::PathBuf, CargoBinError>(
                first_found(found@, joined_path(dir, program)),
            ),
        },
{
    if is_absolute(&program) {
        return Ok(program);
    }
    let dir = match current_dir {
        Ok(dir) => dir,
        Err(source) => return Err(CargoBinError::CurrentDir { source }),
    };
    let ghost all = found@;
    let ghost fallback = joined_path(dir, program);
    let mut remaining = found;
    let mut result = join_path(&dir, &program);
    while remaining.len() > 0
        invariant
            remaining@ == all.take(remaining@.len() as int),
            remaining@.len() <= all.len(),
            result == first_found(all.subrange(remaining@.len() as int, all.len() as int), fallback),
        decreases remaining@.len(),
    {
        let k = remaining.len();
        let item = remaining.pop().unwrap();
        assert(all.subrange(k - 1, all.len() as int).drop_first() =~= all.subrange(
            k as int,
            all.len() as int,
        ));
        assert(item == all[k - 1]);
        assert(remaining@ =~= all.take(k - 1));
        if let Some(p) = item {
            result = p;
        }
    }
    assert(all.subrange(0, all.len() as int) =~= all);
    Ok(result)
}

/// How many directories above the marker file the repository root is.
pub const REPO_ROOT_MARKER_DEPTH: usize = 4;

/// The `n`-th ancestor of `p` by `Path::parent`, if it has one.
pub open spec fn ancestor(p: std::path::PathBuf, n: nat) -> Option<std::path::PathBuf>
    decreases n,
{
    if n == 0 {
        Some(p)
    } else {
        match ancestor(p, (n - 1) as nat) {
            Some(q) => parent_of(q),
            None => None,
        }
    }
}

/// The repository root: the directory `REPO_ROOT_MARKER_DEPTH` levels above
/// the marker file, or a not-found error when the marker is not that deep.
pub fn repo_root_from_marker(marker: std::path::PathBuf) -> (r: Result<std::path::PathBuf, NotFoundError>)
    ensures
        ancestor(marker, REPO_ROOT_MARKER_DEPTH as nat) matches Some(root) ==> r matches Ok(p) && p == root,
        ancestor(marker, REPO_ROOT_MARKER_DEPTH as nat) is None ==> (r matches Err(e)
            && e.message@ == MARKER_TOO_SHALLOW@),
{
    let mut root = marker;
    let mut i: usize = 0;
    while i < REPO_ROOT_MARKER_DEPTH
        invariant
            i <= REPO_ROOT_MARKER_DEPTH,
            ancestor(marker, i as nat) == Some(root),
        decreases REPO_ROOT_MARKER_DEPTH - i,
    {
        match parent_path(&root) {
            Some(parent) => {
                root = parent;
            },
            None => {
                proof {
                    lemma_ancestor_none_stays(marker, (i + 1) as nat, REPO_ROOT_MARKER_DEPTH as nat);
                }
                return Err(NotFoundError { message: String::from_str(MARKER_TOO_SHALLOW) });
            },
        }
        i = i + 1;
    }
    Ok(root)
}

/// A path without an `n`-th ancestor has none further up either.
proof fn lemma_ancestor_none_stays(p: std::path::PathBuf, n: nat, m: nat)
    requires
        ancestor(p, n) is None,
        n <= m,
    ensures
        ancestor(p, m) is None,
    decreases m - n,
{
    if n < m {
        lemma_ancestor_none_stays(p, n + 1, m);
    }
}

/// The index of the first variable that is set, given the values of the
/// variables in the order they are tried.
pub open spec fn first_set(values: Seq<Option<std::path::PathBuf>>) -> Option<int>
    decreases values.len(),
{
    if values.len() == 0 {
        None
    } else {
        match first_set(values.drop_last()) {
            Some(i) => Some(i),
            None => if values.last() is Some {
                Some(values.len() - 1)
            } else {
                None
            },
        }
    }
}

proof fn lemma_first_set_prefix(values: Seq<Option<std::path::PathBuf>>, k: int)
    requires
        0 <= k <= values.len(),
        first_set(values.take(k)) is Some,
    ensures
        first_set(values) == first_set(values.take(k)),
    decreases values.len(),
{
    if k < values.len() {
        assert(values.drop_last().take(k) =~= values.take(k));
        lemma_first_set_prefix(values.drop_last(), k);
    } else {
        assert(values.take(k) =~= values);
    }
}

/// The first variable that is set, among the values of the variables in the
/// order they are tried: its index, if any.
pub fn first_set_variable(values: &Vec<Option<std::path::PathBuf>>) -> (r: Option<usize>)
    ensures
        r matches Some(i) ==> first_set(values@) == Some(i as int),
        r is None ==> first_set(values@) is None,
        r matches Some(i) ==> i < values@.len() && values@[i as int] is Some && forall|j: int|
            0 <= j < i ==> values@[j] is None,
        r is None ==> forall|j: int| 0 <= j < values@.len() ==> values@[j] is None,
{
    let n = values.len();
    let mut i: usize = 0;
    while i < n
        invariant
            n == values@.len(),
            i <= n,
            first_set(values@.take(i as int)) is None,
            forall|j: int| 0 <= j < i ==> values@[j] is None,
        decreases n - i,
    {
        assert(values@.take(i + 1).drop_last() =~= values@.take(i as int));
        if values[i].is_some() {
            proof {
                lemma_first_set_prefix(values@, i + 1);
            }
            return Some(i);
        }
        i = i + 1;
    }
    assert(values@.take(n as int) =~= values@);
    None
}

/// The name of the workspace manifest file.
pub const WORKSPACE_MANIFEST: &'static str = "Cargo.toml";

/// The manifest that the fallback build uses: `<root>/codex-rs/Cargo.toml`.
pub fn workspace_manifest_path(repo_root: &std::path::PathBuf) -> (p: std::path::PathBuf)
    ensures
        p == joined_path(
            joined_path(*repo_root, path_of_text(WORKSPACE_DIR@)),
            path_of_text(WORKSPACE_MANIFEST@),
        ),
{
    let workspace = join_path(repo_root, &path_from_text(WORKSPACE_DIR));
    join_path(&workspace, &path_from_text(WORKSPACE_MANIFEST))
}

/// The arguments of the fallback build of the binary `name`, around the
/// manifest path: the ones before it, then the ones after it.
pub open spec fn cargo_build_args(name: Seq<char>) -> (Seq<Seq<char>>, Seq<Seq<char>>) {
    (seq!["build"@, "--quiet"@, "--manifest-path"@], seq!["--bin"@, name])
}

/// The arguments of `cargo` for the fallback build of `name`: those before
/// the manifest path, and those after it.
pub fn cargo_build_arguments(name: &str) -> (r: (Vec<String>, Vec<String>))
    ensures
        key_texts(r.0@) == cargo_build_args(name@).0,
        key_texts(r.1@) == cargo_build_args(name@).1,
{
    let mut before: Vec<String> = Vec::new();
    before.push(String::from_str("build"));
    before.push(String::from_str("--quiet"));
    before.push(String::from_str("--manifest-path"));
    let mut after: Vec<String> = Vec::new();
    after.push(String::from_str("--bin"));
    after.push(String::from_str(name));
    assert(key_texts(before@) =~= cargo_build_args(name@).0);
    assert(key_texts(after@) =~= cargo_build_args(name@).1);
    (before, after)
}

/// The error when the workspace manifest, displayed as `manifest`, is missing.
pub fn manifest_missing(manifest: &str) -> (e: NotFoundError)
    ensures
        e.message@ == "workspace Cargo.toml not found at "@ + manifest@,
{
    let mut message = String::from_str("workspace Cargo.toml not found at ");
    message.append(manifest);
    NotFoundError { message }
}

/// The message when the fallback build of `name` ended with `status`, as displayed.
pub fn cargo_build_failed(name: &str, status: &str) -> (m: String)
    ensures
        m@ == "cargo build --bin "@ + name@ + " failed with status "@ + status@,
{
    let mut m = String::from_str("cargo build --bin ");
    m.append(name);
    m.append(" failed with status ");
    m.append(status);
    m
}

/// The runfile path of a test resource under Bazel, before normalization:
/// `_main/<package>/<resource>`; without a package it is not found.
pub fn bazel_runfile_path(bazel_package: Option<&str>, resource: &std::path::PathBuf) -> (r: Result<
    std::path::PathBuf,
    NotFoundError,
>)
    ensures
        bazel_package matches Some(package) ==> (r matches Ok(p) && p == joined_path(
            joined_path(path_of_text("_main"@), path_of_text(package@)),
            *resource,
        )),
        bazel_package is None ==> (r matches Err(e) && e.message@ == BAZEL_PACKAGE_UNSET@),
{
    match bazel_package {
        Some(package) => {
            let main = path_from_text("_main");
            let package_dir = join_path(&main, &path_from_text(package));
            Ok(join_path(&package_dir, resource))
        },
        None => Err(NotFoundError { message: String::from_str(BAZEL_PACKAGE_UNSET) }),
    }
}

/// One component of a path: a prefix (such as a drive), the root, `.`, `..`,
/// or a plain name.
#[derive(Debug, PartialEq, Eq)]
pub enum PathComponent {
    Prefix(String),
    RootDir,
    CurDir,
    ParentDir,
    Normal(String),
}

/// Appends the component `c` to the normalized components `out`: `.` is
/// dropped, and `..` cancels a preceding plain name (otherwise it is kept).
pub open spec fn normalize_step(out: Seq<PathComponent>, c: PathComponent) -> Seq<PathComponent> {
    match c {
        PathComponent::CurDir => out,
        PathComponent::ParentDir => if out.len() > 0 && out.last() is Normal {
            out.drop_last()
        } else {
            out.push(c)
        },
        _ => out.push(c),
    }
}

/// The components of a path after normalization, taken from left to right.
pub open spec fn normalized(components: Seq<PathComponent>) -> Seq<PathComponent>
    decreases components.len(),
{
    if components.len() == 0 {
        Seq::empty()
    } else {
        normalize_step(normalized(components.drop_last()), components.last())
    }
}

fn copy_component(c: &PathComponent) -> (r: PathComponent)
    ensures
        r == *c,
{
    match c {
        PathComponent::Prefix(s) => PathComponent::Prefix(s.clone()),
        PathComponent::RootDir => PathComponent::RootDir,
        PathComponent::CurDir => PathComponent::CurDir,
        PathComponent::ParentDir => PathComponent::ParentDir,
        PathComponent::Normal(s) => PathComponent::Normal(s.clone()),
    }
}

/// Normalizes the components of a runfile path: drops `.` and lets `..`
/// remove the plain name before it, without touching the file system.
pub fn normalize_runfile_path(components: &Vec<PathComponent>) -> (r: Vec<PathComponent>)
    ensures
        r@ == normalized(components@),
{
    let mut out: Vec<PathComponent> = Vec::new();
    let n = components.len();
    let mut i: usize = 0;
    while i < n
        invariant
            n == components@.len(),
            i <= n,
            out@ == normalized(components@.take(i as int)),
        decreases n - i,
    {
        assert(components@.take(i + 1).drop_last() =~= components@.take(i as int));
        let c = &components[i];
        match c {
            PathComponent::CurDir => {},
            PathComponent::ParentDir => {
                let len = out.len();
                let after_name = len > 0 && match &out[len - 1] {
                    PathComponent::Normal(_) => true,
                    _ => false,
                };
                if after_name {
                    out.pop();
                } else {
                    out.push(PathComponent::ParentDir);
                }
            },
            _ => {
                out.push(copy_component(c));
            },
        }
        i = i + 1;
    }
    assert(components@.take(n as int) =~= components@);
    out
}


/// Components in normal form: no `.`, and no `..` right after a plain name.
pub open spec fn is_normalized(s: Seq<PathComponent>) -> bool {
    &&& forall|i: int| 0 <= i < s.len() ==> !(#[trigger] s[i] is CurDir)
    &&& forall|i: int| 0 < i < s.len() && #[trigger] s[i] is ParentDir ==> !(s[i - 1] is Normal)
}

/// Normalization yields components in normal form.
pub proof fn lemma_normalized_is_normal_form(s: Seq<PathComponent>)
    ensures
        is_normalized(normalized(s)),
    decreases s.len(),
{
    if s.len() > 0 {
        lemma_normalized_is_normal_form(s.drop_last());
        let prev = normalized(s.drop_last());
        let out = normalized(s);
        assert forall|i: int| 0 <= i < out.len() implies !(#[trigger] out[i] is CurDir) by {
            if i < prev.len() {
                assert(out[i] == prev[i]);
            }
        }
        assert forall|i: int| 0 < i < out.len() && #[trigger] out[i] is ParentDir implies !(out[i
            - 1] is Normal) by {
            if i < prev.len() {
                assert(out[i] == prev[i]);
                assert(out[i - 1] == prev[i - 1]);
            } else {
                assert(out[i - 1] == prev[i - 1]);
            }
        }
    }
}

/// Components already in normal form are left as they are.
pub proof fn lemma_normal_form_unchanged(t: Seq<PathComponent>)
    requires
        is_normalized(t),
    ensures
        normalized(t) == t,
    decreases t.len(),
{
    if t.len() > 0 {
        let prefix = t.drop_last();
        assert(is_normalized(prefix)) by {
            assert forall|i: int| 0 < i < prefix.len() && #[trigger] prefix[i] is ParentDir implies !(
            prefix[i - 1] is Normal) by {
                assert(prefix[i] == t[i]);
                assert(prefix[i - 1] == t[i - 1]);
            }
        }
        lemma_normal_form_unchanged(prefix);
        let last = t.last();
        assert(!(last is CurDir));
        if last is ParentDir && prefix.len() > 0 {
            assert(!(t[t.len() - 2] is Normal));
        }
        assert(prefix.push(last) =~= t);
    }
}

/// Normalizing a second time changes nothing.
pub proof fn lemma_normalize_idempotent(s: Seq<PathComponent>)
    ensures
        normalized(normalized(s)) == normalized(s),
{
    lemma_normalized_is_normal_form(s);
    lemma_normal_form_unchanged(normalized(s));
}

} // verus!
