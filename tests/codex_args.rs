use jean::codex_args::{build_codex_args_detached, normalize_reasoning_effort, ThinkingLevel};
use jean::mode_policy::{
    codex_detached_policy, push_codex_detached_mode_args, CodexSandbox, ExecutionMode,
};

fn args_for(
    existing_session_id: Option<&str>,
    execution_mode: Option<&str>,
    model: Option<&str>,
    reasoning_effort: Option<ThinkingLevel>,
) -> Vec<String> {
    build_codex_args_detached(
        "s1",
        "w1",
        existing_session_id,
        model,
        reasoning_effort.as_ref(),
        execution_mode,
        "/tmp",
        None,
    )
    .0
}

fn position(args: &[String], token: &str) -> usize {
    args.iter().position(|a| a == token).unwrap()
}

#[test]
fn codex_args_global_flags_are_first() {
    let args = args_for(None, Some("plan"), Some("gpt-5.2-codex"), None);
    let exec_idx = args.iter().position(|a| a == "exec").unwrap();
    assert_eq!(args.get(0).map(String::as_str), Some("--search"));
    assert!(args.iter().any(|a| a == "--ask-for-approval"));
    assert!(args.iter().any(|a| a == "never"));
    assert!(exec_idx > 0);
}

#[test]
fn codex_args_never_uses_claude_flags() {
    let args = args_for(None, Some("plan"), Some("gpt-5.2-codex"), None);
    let joined = args.join(" ");
    assert!(!joined.contains("--permission-mode"));
    assert!(!joined.contains("--allowedTools"));
    assert!(!joined.contains("--output-format"));
    assert!(!joined.contains("--input-format"));
    assert!(!joined.contains("--experimental-json"));
    assert!(joined.contains("--json"));
}

#[test]
fn codex_args_plan_uses_read_only_sandbox() {
    let args = args_for(None, Some("plan"), Some("gpt-5.2-codex"), None);
    let sandbox_idx = args.iter().position(|a| a == "--sandbox").unwrap();
    assert_eq!(args.get(sandbox_idx + 1).map(String::as_str), Some("read-only"));
}

#[test]
fn codex_args_resume_orders_exec_flags_before_resume() {
    let args = args_for(
        Some("019c0af8-581d-77b3-af91-ce573a2d1d97"),
        Some("plan"),
        Some("gpt-5.2-codex"),
        None,
    );

    let resume_idx = args.iter().position(|a| a == "resume").unwrap();
    let cd_idx = args.iter().position(|a| a == "--cd").unwrap();
    let sandbox_idx = args.iter().position(|a| a == "--sandbox").unwrap();
    let json_idx = args.iter().position(|a| a == "--json").unwrap();

    assert!(cd_idx < resume_idx);
    assert!(sandbox_idx < resume_idx);
    assert!(json_idx < resume_idx);
    assert_eq!(args.last().map(String::as_str), Some("-"));
}

#[test]
fn codex_args_build_uses_workspace_write_sandbox_and_enables_network() {
    let args = args_for(None, Some("build"), Some("gpt-5.2-codex"), None);
    let sandbox_idx = args.iter().position(|a| a == "--sandbox").unwrap();
    assert_eq!(
        args.get(sandbox_idx + 1).map(String::as_str),
        Some("workspace-write")
    );
    assert!(args
        .iter()
        .any(|a| a == "sandbox_workspace_write.network_access=true"));
}

#[test]
fn codex_args_yolo_uses_dangerous_flag() {
    let args = args_for(None, Some("yolo"), Some("gpt-5.2-codex"), None);
    assert!(args
        .iter()
        .any(|a| a == "--dangerously-bypass-approvals-and-sandbox"));
}

#[test]
fn codex_args_yolo_does_not_set_sandbox() {
    let args = args_for(None, Some("yolo"), Some("gpt-5.2-codex"), None);
    assert!(!args.iter().any(|a| a == "--sandbox"));
}

#[test]
fn codex_args_omits_empty_model() {
    let args = args_for(None, Some("plan"), Some("   "), None);
    assert!(!args.iter().any(|a| a == "--model"));
}

#[test]
fn codex_args_adds_reasoning_effort_config() {
    let args = args_for(None, Some("plan"), Some("gpt-5.2"), Some(ThinkingLevel::High));
    let config_idx = args.iter().position(|a| a == "--config").unwrap();
    assert_eq!(
        args.get(config_idx + 1).map(String::as_str),
        Some("model_reasoning_effort=\"high\"")
    );
}

#[test]
fn codex_args_maps_minimal_to_low() {
    let args = args_for(None, Some("plan"), Some("gpt-5.2"), Some(ThinkingLevel::Minimal));
    let config_idx = args.iter().position(|a| a == "--config").unwrap();
    assert_eq!(
        args.get(config_idx + 1).map(String::as_str),
        Some("model_reasoning_effort=\"low\"")
    );
}

#[test]
fn normalize_reasoning_effort_maps_minimal_to_low() {
    assert_eq!(normalize_reasoning_effort(Some("minimal")), Some("low"));
}

#[test]
fn normalize_reasoning_effort_strips_empty() {
    assert_eq!(normalize_reasoning_effort(Some("   ")), None);
}

#[test]
fn normalize_reasoning_effort_passes_through_known_values() {
    assert_eq!(normalize_reasoning_effort(Some("low")), Some("low"));
    assert_eq!(normalize_reasoning_effort(Some("xhigh")), Some("xhigh"));
}

#[test]
fn plan_resume_orders_tokens_exactly() {
    let args = args_for(Some("019c0af8"), Some("plan"), Some("gpt-5.2-codex"), None);
    let exec = position(&args, "exec");
    let cd = position(&args, "--cd");
    let sandbox = position(&args, "--sandbox");
    let json = position(&args, "--json");
    let resume = position(&args, "resume");
    assert!(exec < cd && cd < sandbox && sandbox < json && json < resume);
    assert_eq!(args[cd + 1], "/tmp");
    assert_eq!(args[sandbox + 1], "read-only");
    assert_eq!(args[resume + 1], "019c0af8");
    assert_eq!(args[resume + 2], "-");
    assert_eq!(args.len(), resume + 3);
}

#[test]
fn detached_plan_and_build_never_ask_for_approval() {
    for mode in ["plan", "build"] {
        let args = args_for(None, Some(mode), None, None);
        let i = position(&args, "--ask-for-approval");
        assert_eq!(args[i + 1], "never");
        assert!(i > position(&args, "exec"));
    }
}

#[test]
fn model_is_trimmed() {
    let args = args_for(None, Some("plan"), Some("  gpt-5.2  "), None);
    let i = position(&args, "--model");
    assert_eq!(args[i + 1], "gpt-5.2");
}

#[test]
fn off_level_adds_no_config() {
    let args = build_codex_args_detached("s1", "w1", None, None, Some(&ThinkingLevel::Off), Some("plan"), "/tmp", None).0;
    assert!(!args.iter().any(|a| a.starts_with("model_reasoning_effort")));
}

#[test]
fn medium_effort_passes_through() {
    let args = build_codex_args_detached("s1", "w1", None, None, Some(&ThinkingLevel::Medium), None, "/w", None).0;
    assert!(args.iter().any(|a| a == "model_reasoning_effort=\"medium\""));
}

#[test]
fn environment_has_diagnostics_and_optional_language() {
    let (_, env) = build_codex_args_detached("s1", "w1", None, None, None, None, "/tmp", Some("French"));
    let expected = vec![
        ("JEAN_SESSION_ID".to_string(), "s1".to_string()),
        ("JEAN_WORKTREE_ID".to_string(), "w1".to_string()),
        ("JEAN_AGENT".to_string(), "codex".to_string()),
        ("JEAN_AI_LANGUAGE".to_string(), "French".to_string()),
    ];
    assert_eq!(env, expected);
    let (_, env) = build_codex_args_detached("s1", "w1", None, None, None, None, "/tmp", None);
    assert_eq!(env.len(), 3);
}

#[test]
fn interactive_build_puts_prompt_last_without_never() {
    let (args, _) = jean::codex_args::build_codex_args_interactive(
        "s1",
        "w1",
        None,
        Some("gpt-5.2"),
        None,
        Some("build"),
        "/tmp",
        None,
        "fix the bug",
    );
    assert_eq!(args[1], "--full-auto");
    assert!(!args.iter().any(|a| a == "--ask-for-approval"));
    assert_eq!(args.last().map(String::as_str), Some("fix the bug"));
    assert!(args.iter().any(|a| a == "sandbox_workspace_write.network_access=true"));
}

#[test]
fn mode_policy_matches_modes() {
    assert_eq!(ExecutionMode::from_optional_str(None), ExecutionMode::Plan);
    assert_eq!(ExecutionMode::from_optional_str(Some("build")), ExecutionMode::Build);
    assert_eq!(ExecutionMode::from_optional_str(Some("yolo")), ExecutionMode::Yolo);
    assert_eq!(ExecutionMode::from_optional_str(Some("other")), ExecutionMode::Plan);
    assert_eq!(CodexSandbox::WorkspaceWrite.as_cli_value(), "workspace-write");
    let mut args = Vec::new();
    push_codex_detached_mode_args(&mut args, &codex_detached_policy(ExecutionMode::Build));
    assert_eq!(
        args,
        vec![
            "--search",
            "--ask-for-approval",
            "never",
            "--sandbox",
            "workspace-write",
            "--config",
            "sandbox_workspace_write.network_access=true",
        ]
    );
    let mut args = Vec::new();
    push_codex_detached_mode_args(&mut args, &codex_detached_policy(ExecutionMode::Yolo));
    assert_eq!(args, vec!["--search", "--dangerously-bypass-approvals-and-sandbox"]);
}

#[test]
fn model_trimming_follows_unicode_white_space() {
    let args = args_for(None, Some("plan"), Some("\u{3000}gpt-5\u{2003}\t"), None);
    let i = position(&args, "--model");
    assert_eq!(args[i + 1], "gpt-5");
    let args = args_for(None, Some("plan"), Some("\u{85}\u{a0}"), None);
    assert!(!args.iter().any(|a| a == "--model"));
}

#[test]
fn resume_appears_once_before_its_token() {
    let args = args_for(Some("t-1"), Some("build"), Some("gpt"), Some(ThinkingLevel::Low));
    assert_eq!(args.iter().filter(|a| *a == "resume").count(), 1);
    assert_eq!(args[args.len() - 3], "resume");
    assert_eq!(args[args.len() - 2], "t-1");
    let args = args_for(None, Some("build"), Some("gpt"), None);
    assert!(!args.iter().any(|a| a == "resume"));
}

#[test]
fn yolo_has_no_approval_flag() {
    let args = args_for(Some("t"), Some("yolo"), Some("gpt"), Some(ThinkingLevel::High));
    assert!(!args.iter().any(|a| a == "--ask-for-approval"));
    assert_eq!(args.iter().filter(|a| a.starts_with("model_reasoning_effort=")).count(), 1);
}
