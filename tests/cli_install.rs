use jean::cli_install::{
    extract_version_number, get_codex_asset, install_tag, release_version, select_versions,
    ReleaseCandidate,
};
use jean::stderr::stderr_tail;

fn cand(tag: &str, date: &str, pre: bool, assets: bool) -> ReleaseCandidate {
    ReleaseCandidate {
        name: None,
        tag_name: tag.into(),
        published_at: date.into(),
        prerelease: pre,
        has_assets: assets,
    }
}

#[test]
fn version_number_is_found_anywhere() {
    assert_eq!(extract_version_number("codex 0.92.0").as_deref(), Some("0.92.0"));
    assert_eq!(extract_version_number("v0.93.0-alpha.1").as_deref(), Some("0.93.0-alpha.1"));
    assert_eq!(extract_version_number("no version"), None);
}

#[test]
fn release_version_falls_back_to_tag() {
    assert_eq!(release_version(Some("Codex 0.92.0"), "rust-v0.92.0"), "0.92.0");
    assert_eq!(release_version(None, "rust-v0.91.0"), "0.91.0");
    assert_eq!(release_version(Some("nightly"), "weird"), "weird");
    assert_eq!(install_tag("0.92.0"), "rust-v0.92.0");
    assert_eq!(install_tag("rust-v0.92.0"), "rust-v0.92.0");
}

#[test]
fn assets_by_platform() {
    assert_eq!(
        get_codex_asset("linux", "x86_64").unwrap(),
        ("codex-x86_64-unknown-linux-gnu.tar.gz", "codex-x86_64-unknown-linux-gnu")
    );
    assert_eq!(get_codex_asset("plan9", "mips").unwrap_err(), "Unsupported platform");
}

#[test]
fn picker_prefers_stable_newest_first() {
    let list = vec![
        cand("rust-v0.1.0", "2025-01-01", false, true),
        cand("rust-v0.3.0", "2025-03-01", false, true),
        cand("rust-v0.4.0-alpha", "2025-04-01", true, true),
        cand("rust-v0.2.0", "2025-02-01", false, false),
        cand("rust-v0.5.0-alpha", "2025-05-01", true, true),
    ];
    let picked: Vec<String> = select_versions(list).into_iter().map(|r| r.version).collect();
    assert_eq!(picked, vec!["0.3.0", "0.1.0", "0.5.0-alpha", "0.4.0-alpha"]);
}

#[test]
fn picker_keeps_five_slots() {
    let list: Vec<_> = (1..=7)
        .map(|i| cand(&format!("rust-v0.{i}.0"), &format!("2025-0{i}-01"), false, true))
        .collect();
    let picked: Vec<String> = select_versions(list).into_iter().map(|r| r.version).collect();
    assert_eq!(picked, vec!["0.7.0", "0.6.0", "0.5.0", "0.4.0", "0.3.0"]);
}

#[test]
fn stderr_tail_keeps_last_ten_non_blank_lines() {
    let text: String = (1..=12).map(|i| format!("line {i}  \r\n\n")).collect();
    let tail = stderr_tail(&text).unwrap();
    let expected: Vec<String> = (3..=12).map(|i| format!("line {i}")).collect();
    assert_eq!(tail, expected.join("\n"));
    assert_eq!(stderr_tail("  \n\n"), None);
    assert_eq!(stderr_tail("only"), Some("only".to_string()));
}

#[test]
fn install_refused_while_sessions_run() {
    assert!(jean::cli_install::install_guard(0).is_ok());
    assert_eq!(
        jean::cli_install::install_guard(1).unwrap_err(),
        "Cannot install Codex CLI while 1 session is running. Please stop all active sessions first."
    );
    assert_eq!(
        jean::cli_install::install_guard(3).unwrap_err(),
        "Cannot install Codex CLI while 3 sessions are running. Please stop all active sessions first."
    );
}

#[test]
fn auth_status_reports_stderr_or_default() {
    let ok = jean::cli_install::auth_status(true, "noise");
    assert!(ok.authenticated && ok.error.is_none());
    let blank = jean::cli_install::auth_status(false, "  \n");
    assert_eq!(blank.error.as_deref(), Some("Not authenticated"));
    let err = jean::cli_install::auth_status(false, " expired token\n");
    assert_eq!(err.error.as_deref(), Some("expired token"));
}

#[test]
fn oneshot_args_are_read_only_from_stdin() {
    let args = jean::codex_args::build_codex_args_oneshot("/repo", Some(" gpt "), Some("minimal"));
    assert_eq!(
        args,
        vec![
            "--ask-for-approval", "never", "exec", "--skip-git-repo-check", "--cd", "/repo",
            "--model", " gpt ", "--config", "model_reasoning_effort=\"low\"",
            "--sandbox", "read-only", "--json", "-",
        ]
    );
    let args = jean::codex_args::build_codex_args_oneshot("/repo", Some("  "), None);
    assert!(!args.iter().any(|a| a == "--model"));
}
