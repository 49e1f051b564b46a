use jean::codex_exec::{CodexAgentMessageItem, CodexExecEvent, CodexThreadError, CodexThreadItem};
use jean::oneshot::extract_final_agent_message;
use jean::run_log::LogLine;

fn message(kind: &str, id: &str, text: &str) -> LogLine {
    let item = CodexThreadItem::AgentMessage(CodexAgentMessageItem { id: id.into(), text: text.into() });
    let event = match kind {
        "item.started" => CodexExecEvent::ItemStarted { item },
        "item.updated" => CodexExecEvent::ItemUpdated { item },
        _ => CodexExecEvent::ItemCompleted { item },
    };
    LogLine {
        is_json: true,
        text: format!(
            "{{\"type\":\"{kind}\",\"item\":{{\"type\":\"agent_message\",\"id\":\"{id}\",\"text\":\"{text}\"}}}}"
        ),
        event: Some(event),
    }
}

fn blank() -> LogLine {
    LogLine { text: String::new(), is_json: false, event: None }
}

#[test]
fn extract_final_agent_message_returns_last_agent_message_text() {
    let lines = vec![
        blank(),
        message("item.completed", "m1", "First"),
        message("item.completed", "m2", "Second"),
    ];
    assert_eq!(extract_final_agent_message(&lines).unwrap(), "Second");
}

#[test]
fn extract_final_agent_message_handles_incremental_updates() {
    let lines = vec![
        blank(),
        message("item.started", "m1", ""),
        message("item.updated", "m1", "H"),
        message("item.updated", "m1", "Hi"),
        message("item.completed", "m1", "Hi"),
    ];
    assert_eq!(extract_final_agent_message(&lines).unwrap(), "Hi");
}

#[test]
fn extract_final_agent_message_ignores_non_json_lines() {
    let lines = vec![
        blank(),
        LogLine { text: "not-json".into(), is_json: false, event: None },
        message("item.completed", "m1", "OK"),
    ];
    assert_eq!(extract_final_agent_message(&lines).unwrap(), "OK");
}

#[test]
fn extract_final_agent_message_surfaces_turn_failed() {
    let lines = vec![
        blank(),
        LogLine {
            is_json: true,
            text: "{\"type\":\"turn.failed\",\"error\":{\"message\":\"boom\"}}".into(),
            event: Some(CodexExecEvent::TurnFailed { error: CodexThreadError { message: "boom".into() } }),
        },
        message("item.completed", "m1", "OK"),
    ];
    let err = extract_final_agent_message(&lines).unwrap_err();
    assert!(err.contains("Codex turn failed: boom"));
}

#[test]
fn extract_final_agent_message_surfaces_stream_error() {
    let lines = vec![
        blank(),
        LogLine {
            is_json: true,
            text: "{\"type\":\"error\",\"message\":\"stream broke\"}".into(),
            event: Some(CodexExecEvent::StreamError { message: "stream broke".into() }),
        },
        message("item.completed", "m1", "OK"),
    ];
    let err = extract_final_agent_message(&lines).unwrap_err();
    assert!(err.contains("Codex stream error: stream broke"));
}

#[test]
fn extract_final_agent_message_errors_on_empty_text() {
    let lines = vec![blank(), message("item.completed", "m1", "")];
    assert_eq!(
        extract_final_agent_message(&lines).unwrap_err(),
        "Empty response from Codex CLI"
    );
}
