use jean::codex_exec::{
    CodexCommandExecutionItem, CodexExecEvent, CodexThreadError, CodexThreadItem,
};
use jean::pty::{
    check_interactive_mode, check_prompt_size, looks_like_approval_prompt, ApprovalRequest,
    InteractiveRun, StreamEnd,
};
use jean::run_log::LogLine;
use jean::supervisor::{failure_message, DetachedRun, PollDecision};

#[test]
fn startup_timeout_kills_and_reports_stderr_tail() {
    let run = DetachedRun::new();
    assert_eq!(run.after_poll(true, true, 121_000, 119_000), PollDecision::KeepPolling);
    let d = run.after_poll(true, true, 121_000, 121_000);
    assert_eq!(d, PollDecision::StartupTimeout { kill: true });
    let msg = failure_message(d, "/s/r.stderr.log", Some("boom")).unwrap();
    assert_eq!(
        msg,
        "Codex startup timeout (120s): no output received. (stderr: /s/r.stderr.log)\n\nstderr (tail):\nboom"
    );
}

#[test]
fn dead_process_decisions() {
    let mut run = DetachedRun::new();
    assert_eq!(run.after_poll(true, false, 2_001, 5_000), PollDecision::ExitedBeforeOutput);
    assert_eq!(run.after_poll(true, false, 2_000, 5_000), PollDecision::KeepPolling);
    assert_eq!(run.after_poll(false, true, 0, 0), PollDecision::Cancelled);
    run.on_line(&LogLine { text: "not json".into(), is_json: false, event: None }).unwrap();
    assert!(!run.received_output);
    run.on_line(&LogLine { text: "{\"type\":\"x\"}".into(), is_json: true, event: None }).unwrap();
    assert!(run.received_output);
    assert_eq!(run.after_poll(true, false, 2_001, 500_000), PollDecision::ExitedAfterOutput);
    assert_eq!(run.after_poll(true, true, 0, 500_000), PollDecision::KeepPolling);
    assert_eq!(
        failure_message(PollDecision::ExitedBeforeOutput, "e.log", None).unwrap(),
        "Codex process exited before producing any output. (stderr: e.log)"
    );
    assert_eq!(failure_message(PollDecision::KeepPolling, "e.log", None), None);
}

#[test]
fn failed_turn_and_stream_error_end_the_run() {
    let mut run = DetachedRun::new();
    let err = run
        .on_line(&LogLine {
            is_json: true,
            text: "{\"type\":\"turn.failed\"}".into(),
            event: Some(CodexExecEvent::TurnFailed { error: CodexThreadError { message: "boom".into() } }),
        })
        .unwrap_err();
    assert_eq!(err, "Codex turn failed: boom");
    let err = run
        .on_line(&LogLine {
            is_json: true,
            text: "{\"type\":\"error\"}".into(),
            event: Some(CodexExecEvent::StreamError { message: "stream broke".into() }),
        })
        .unwrap_err();
    assert_eq!(err, "Codex stream error: stream broke");
}

fn command_event() -> CodexExecEvent {
    CodexExecEvent::ItemStarted {
        item: CodexThreadItem::CommandExecution(CodexCommandExecutionItem {
            id: "cmd_7".into(),
            command: "rm -rf build".into(),
            aggregated_output: String::new(),
            exit_code: None,
            status: "in_progress".into(),
        }),
    }
}

const COMMAND_JSON: &str = "{\"type\":\"item.started\",\"item\":{\"type\":\"command_execution\"}}";

/// Feeds one read of terminal output the way the supervisor does.
fn read_chunk(run: &mut InteractiveRun, chunk: &str) -> (Vec<String>, Vec<ApprovalRequest>) {
    let mut tool_uses = Vec::new();
    let mut approvals = Vec::new();
    run.take_output(chunk);
    while let Some(line) = run.next_line() {
        let event = if line == COMMAND_JSON { Some(command_event()) } else { None };
        let res = run.on_pty_line(&line, event.as_ref());
        for e in res.events {
            if let jean::item_folder::FolderEvent::ToolUse { id, .. } = e {
                tool_uses.push(id);
            }
        }
        approvals.extend(res.approval);
    }
    approvals.extend(run.probe_pending());
    (tool_uses, approvals)
}

#[test]
fn pty_approval_targets_last_command() {
    let mut run = InteractiveRun::new();
    let (uses, approvals) = read_chunk(&mut run, &format!("{COMMAND_JSON}\r\n"));
    assert_eq!(uses, vec!["cmd_7"]);
    assert!(approvals.is_empty());
    let (uses, approvals) = read_chunk(&mut run, "Approve? [y/N]");
    assert!(uses.is_empty());
    assert_eq!(approvals.len(), 1);
    assert_eq!(approvals[0].tool_use_id, "cmd_7");
    assert_eq!(approvals[0].command, "rm -rf build");
    assert_eq!(approvals[0].prompt, "Approve? [y/N]");
    assert!(run.awaiting_approval);
    let (_, approvals) = read_chunk(&mut run, " ");
    assert!(approvals.is_empty());
}

#[test]
fn pty_approval_in_same_read_as_command() {
    let mut run = InteractiveRun::new();
    let (uses, approvals) = read_chunk(&mut run, &format!("{COMMAND_JSON}\nApprove? [y/N]"));
    assert_eq!(uses, vec!["cmd_7"]);
    assert_eq!(approvals.len(), 1);
    assert_eq!(approvals[0].tool_use_id, "cmd_7");
}

#[test]
fn pty_stream_end_decides_cancellation() {
    let mut run = InteractiveRun::new();
    assert!(!run.finish(StreamEnd::Closed));
    assert!(run.cancelled);
    let mut run = InteractiveRun::new();
    run.finished = true;
    assert!(run.finish(StreamEnd::Closed));
    assert!(!run.finish(StreamEnd::ReadError));
    assert!(!InteractiveRun::new().finish(StreamEnd::Unregistered));
}

#[test]
fn prompt_tail_stays_within_its_size() {
    let mut run = InteractiveRun::new();
    for _ in 0..30 {
        run.on_pty_line(&"x".repeat(150), None);
    }
    assert_eq!(run.prompt_tail.chars().count(), 2000);
}

#[test]
fn pty_free_text_line_prompts_once() {
    let mut run = InteractiveRun::new();
    let res = run.on_pty_line("Proceed with this? (y/n)", None);
    let req = res.approval.unwrap();
    assert_eq!(req.tool_use_id, "codex:approval");
    assert_eq!(req.command, "(unknown)");
    assert_eq!(req.prompt, "Proceed with this? (y/n)");
    assert!(run.on_pty_line("Still waiting [Y/N]", None).approval.is_none());
    assert_eq!(run.prompt_tail, "Proceed with this? (y/n)\nStill waiting [Y/N]\n");
}

#[test]
fn approval_on_lowered_text() {
    assert!(jean::pty::approval_in_lowered("continue? [y/n]"));
    assert!(jean::pty::approval_in_lowered("proceed (y/n)"));
    assert!(!jean::pty::approval_in_lowered("Continue? [Y/N]"));
}

#[test]
fn completed_turn_is_not_cancelled() {
    let mut run = InteractiveRun::new();
    let ev = CodexExecEvent::TurnCompleted {
        usage: jean::codex_exec::CodexUsage { input_tokens: 1, cached_input_tokens: 0, output_tokens: 2 },
    };
    let res = run.on_pty_line("{\"type\":\"turn.completed\"}", Some(&ev));
    assert!(res.error.is_none());
    assert!(run.finished);
    assert!(!run.cancelled);
}

#[test]
fn approval_prompt_shapes() {
    assert!(looks_like_approval_prompt("Run it? [Y/n]"));
    assert!(looks_like_approval_prompt("APPROVE command y/n"));
    assert!(!looks_like_approval_prompt("approve later"));
    assert!(!looks_like_approval_prompt("plain output"));
}

#[test]
fn interactive_guards() {
    assert!(check_interactive_mode(Some("build")).is_ok());
    assert_eq!(
        check_interactive_mode(Some("plan")).unwrap_err(),
        "Interactive Codex execution is only supported in build mode"
    );
    assert!(check_prompt_size(&"a".repeat(24 * 1024)).is_ok());
    assert_eq!(
        check_prompt_size(&"a".repeat(24 * 1024 + 1)).unwrap_err(),
        "Prompt too large for interactive Codex execution (24577 bytes > 24576)."
    );
}
