use std::path::PathBuf;

use codex_cli::cargo_bin::{
    assert_cmd_candidates, cargo_bin_env_keys, cargo_bin_step, normalize_runfile_path, repo_root_from_marker,
    resolve_assert_cmd_path, resolve_cargo_runfile, EnvBinLookup, resolve_bin_from_env, CargoBinError,
    CargoBinLookup, CargoBinStep, PathComponent, first_set_variable, workspace_manifest_path,
    cargo_build_arguments, manifest_missing, cargo_build_failed, bazel_runfile_path, MARKER_TOO_SHALLOW,
};

#[test]
fn env_keys_add_underscored_name_for_dashes() {
    assert_eq!(cargo_bin_env_keys("codex-exec"), vec!["CARGO_BIN_EXE_codex-exec", "CARGO_BIN_EXE_codex_exec"]);
    assert_eq!(cargo_bin_env_keys("codex"), vec!["CARGO_BIN_EXE_codex"]);
    assert_eq!(cargo_bin_env_keys("a-b-c"), vec!["CARGO_BIN_EXE_a-b-c", "CARGO_BIN_EXE_a_b_c"]);
    assert_eq!(cargo_bin_env_keys(""), vec!["CARGO_BIN_EXE_"]);
}

fn normal(s: &str) -> PathComponent {
    PathComponent::Normal(s.to_string())
}

#[test]
fn normalize_drops_dots_and_cancels_parents() {
    let path = vec![normal("_main"), PathComponent::CurDir, normal("pkg"), PathComponent::ParentDir, normal("res.txt")];
    assert_eq!(normalize_runfile_path(&path), vec![normal("_main"), normal("res.txt")]);
    let leading = vec![PathComponent::ParentDir, normal("x"), PathComponent::ParentDir, PathComponent::ParentDir];
    assert_eq!(normalize_runfile_path(&leading), vec![PathComponent::ParentDir, PathComponent::ParentDir]);
    let rooted = vec![PathComponent::RootDir, PathComponent::ParentDir, normal("a")];
    assert_eq!(normalize_runfile_path(&rooted), vec![PathComponent::RootDir, PathComponent::ParentDir, normal("a")]);
    let once = normalize_runfile_path(&path);
    assert_eq!(normalize_runfile_path(&once), once);
}

#[test]
fn resolve_bin_from_env_reports_missing_path() {
    let runfile = EnvBinLookup::Runfiles { located: Some(PathBuf::from("/rf/bin")), exists: true };
    assert_eq!(resolve_bin_from_env("K", PathBuf::from("raw"), runfile).unwrap(), PathBuf::from("/rf/bin"));
    let direct = EnvBinLookup::Direct { exists: true };
    assert_eq!(resolve_bin_from_env("K", PathBuf::from("/abs/bin"), direct).unwrap(), PathBuf::from("/abs/bin"));
    let missing = [
        EnvBinLookup::Runfiles { located: Some(PathBuf::from("/rf/bin")), exists: false },
        EnvBinLookup::Runfiles { located: None, exists: false },
        EnvBinLookup::Direct { exists: false },
        EnvBinLookup::Direct { exists: true },
    ];
    for lookup in missing {
        match resolve_bin_from_env("CARGO_BIN_EXE_x", PathBuf::from("raw"), lookup) {
            Err(CargoBinError::ResolvedPathDoesNotExist { key, path }) => {
                assert_eq!(key, "CARGO_BIN_EXE_x");
                assert_eq!(path, PathBuf::from("raw"));
            }
            other => panic!("unexpected {other:?}"),
        }
    }
}

#[test]
fn assert_cmd_path_candidates_and_choice() {
    let program = PathBuf::from("target/debug/codex");
    let cwd = PathBuf::from("/work/codex-rs/exec");
    let root = Some(PathBuf::from("/work"));
    assert_eq!(
        assert_cmd_candidates(&program, &cwd, &root),
        vec![
            PathBuf::from("/work/codex-rs/exec/target/debug/codex"),
            PathBuf::from("/work/codex-rs/target/debug/codex"),
            PathBuf::from("/work/target/debug/codex"),
        ]
    );
    assert_eq!(assert_cmd_candidates(&program, &cwd, &None), vec![PathBuf::from("/work/codex-rs/exec/target/debug/codex")]);
    let found = vec![None, Some(PathBuf::from("/work/codex-rs/target/debug/codex")), Some(PathBuf::from("/work/target/debug/codex"))];
    assert_eq!(
        resolve_assert_cmd_path(program.clone(), Ok(cwd.clone()), found).unwrap(),
        PathBuf::from("/work/codex-rs/target/debug/codex")
    );
    assert_eq!(
        resolve_assert_cmd_path(program.clone(), Ok(cwd.clone()), vec![None, None]).unwrap(),
        PathBuf::from("/work/codex-rs/exec/target/debug/codex")
    );
    assert_eq!(
        resolve_assert_cmd_path(PathBuf::from("/abs/codex"), Err(std::io::Error::other("no cwd")), Vec::new()).unwrap(),
        PathBuf::from("/abs/codex")
    );
    assert!(matches!(
        resolve_assert_cmd_path(program, Err(std::io::Error::other("no cwd")), Vec::new()),
        Err(CargoBinError::CurrentDir { .. })
    ));
}

#[test]
fn repo_root_is_four_levels_above_marker() {
    let root = repo_root_from_marker(PathBuf::from("/work/codex-rs/utils/cargo-bin/repo_root.marker")).unwrap();
    assert_eq!(root, PathBuf::from("/work"));
    let shallow = repo_root_from_marker(PathBuf::from("/a/repo_root.marker")).unwrap_err();
    assert_eq!(shallow.message, "repo_root.marker did not have expected parent depth");
    assert_eq!(shallow.message, MARKER_TOO_SHALLOW);
}

#[test]
fn lookup_builds_once_then_reports() {
    let keys = cargo_bin_env_keys("codex-exec");
    let missing = || CargoBinLookup::Found { path: PathBuf::from("target/debug/codex-exec"), exists: false };
    assert!(matches!(cargo_bin_step("codex-exec", keys.clone(), 0, false, &None, missing()), CargoBinStep::BuildAndRetry));
    match cargo_bin_step("codex-exec", keys.clone(), 1, false, &Some(Ok(())), missing()) {
        CargoBinStep::Done(Err(CargoBinError::ResolvedPathDoesNotExist { key, path })) => {
            assert_eq!(key, "assert_cmd::Command::cargo_bin (cargo build fallback succeeded)");
            assert_eq!(path, PathBuf::from("target/debug/codex-exec"));
        }
        other => panic!("unexpected {other:?}"),
    }
    match cargo_bin_step("codex-exec", keys.clone(), 0, true, &None, missing()) {
        CargoBinStep::Done(Err(CargoBinError::ResolvedPathDoesNotExist { key, .. })) => {
            assert_eq!(key, "assert_cmd::Command::cargo_bin");
        }
        other => panic!("unexpected {other:?}"),
    }
    let failed = CargoBinLookup::Failed { error: "no such target".to_string() };
    match cargo_bin_step("codex-exec", keys.clone(), 1, false, &Some(Err("exit 101".to_string())), failed) {
        CargoBinStep::Done(Err(CargoBinError::NotFound { name, env_keys, fallback })) => {
            assert_eq!(name, "codex-exec");
            assert_eq!(env_keys, keys);
            assert_eq!(fallback, "assert_cmd fallback failed: no such target; cargo build fallback failed: exit 101");
        }
        other => panic!("unexpected {other:?}"),
    }
    let found = CargoBinLookup::Found { path: PathBuf::from("/t/codex-exec"), exists: true };
    match cargo_bin_step("codex-exec", keys, 0, false, &None, found) {
        CargoBinStep::Done(Ok(path)) => assert_eq!(path, PathBuf::from("/t/codex-exec")),
        other => panic!("unexpected {other:?}"),
    }
}

#[test]
fn cargo_runfile_is_joined_onto_manifest_dir() {
    let manifest_dir = PathBuf::from("/work/codex-rs/utils");
    let joined = resolve_cargo_runfile(&manifest_dir, &PathBuf::from("tests/data.txt")).unwrap();
    assert_eq!(joined, PathBuf::from("/work/codex-rs/utils/tests/data.txt"));
    let absolute = resolve_cargo_runfile(&manifest_dir, &PathBuf::from("/etc/x")).unwrap();
    assert_eq!(absolute, PathBuf::from("/etc/x"));
}

#[test]
fn first_set_variable_wins() {
    assert_eq!(first_set_variable(&vec![None, Some(PathBuf::from("b")), Some(PathBuf::from("c"))]), Some(1));
    assert_eq!(first_set_variable(&vec![Some(PathBuf::from("a")), Some(PathBuf::from("b"))]), Some(0));
    assert_eq!(first_set_variable(&vec![None, None]), None);
    assert_eq!(first_set_variable(&Vec::new()), None);
}

#[test]
fn fallback_build_inputs() {
    assert_eq!(workspace_manifest_path(&PathBuf::from("/work")), PathBuf::from("/work/codex-rs/Cargo.toml"));
    let (before, after) = cargo_build_arguments("codex-exec");
    assert_eq!(before, vec!["build", "--quiet", "--manifest-path"]);
    assert_eq!(after, vec!["--bin", "codex-exec"]);
    assert_eq!(
        manifest_missing("/work/codex-rs/Cargo.toml").message,
        "workspace Cargo.toml not found at /work/codex-rs/Cargo.toml"
    );
    assert_eq!(
        cargo_build_failed("codex", "exit status: 101"),
        "cargo build --bin codex failed with status exit status: 101"
    );
}

#[test]
fn bazel_runfile_path_needs_a_package() {
    assert_eq!(
        bazel_runfile_path(Some("codex-rs/core"), &PathBuf::from("tests/data.txt")).unwrap(),
        PathBuf::from("_main/codex-rs/core/tests/data.txt")
    );
    assert_eq!(
        bazel_runfile_path(None, &PathBuf::from("tests/data.txt")).unwrap_err().message,
        "BAZEL_PACKAGE was not set at compile time"
    );
}
