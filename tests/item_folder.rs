use jean::codex_exec::{
    CodexAgentMessageItem, CodexCommandExecutionItem, CodexExecEvent, CodexFileChangeItem,
    CodexFileUpdateChange, CodexMcpToolCallError, CodexMcpToolCallItem, CodexMcpToolCallResult,
    CodexReasoningItem, CodexThreadItem, CodexTodoItem, CodexTodoListItem, CodexUsage,
    CodexWebSearchItem,
};
use jean::item_folder::{decimal_string, text_delta_of, FolderEvent, ItemFolder};
use jean::run_log::{parse_codex_run_to_message, LogLine};
use jean::supervisor::DetachedRun;
use jean::types::{ChatAgent, ContentBlock, RunEntry, RunStatus, ToolInput};

fn agent(id: &str, text: &str) -> CodexThreadItem {
    CodexThreadItem::AgentMessage(CodexAgentMessageItem { id: id.into(), text: text.into() })
}

fn todo(id: &str, items: &[(&str, bool)]) -> CodexThreadItem {
    CodexThreadItem::TodoList(CodexTodoListItem {
        id: id.into(),
        items: items
            .iter()
            .map(|(t, c)| CodexTodoItem { text: t.to_string(), completed: *c })
            .collect(),
    })
}

fn command(id: &str, cmd: &str, out: &str) -> CodexThreadItem {
    CodexThreadItem::CommandExecution(CodexCommandExecutionItem {
        id: id.into(),
        command: cmd.into(),
        aggregated_output: out.into(),
        exit_code: None,
        status: "in_progress".into(),
    })
}

fn chunks(events: &[FolderEvent]) -> Vec<String> {
    events
        .iter()
        .filter_map(|e| match e {
            FolderEvent::Chunk { content } => Some(content.clone()),
            _ => None,
        })
        .collect()
}

fn tool_uses(events: &[FolderEvent]) -> Vec<String> {
    events
        .iter()
        .filter_map(|e| match e {
            FolderEvent::ToolUse { id, .. } => Some(id.clone()),
            _ => None,
        })
        .collect()
}

#[test]
fn delta_suffix_emits_only_new_text() {
    let mut f = ItemFolder::new();
    let mut all = f.apply_item(&agent("m1", "He"));
    all.extend(f.apply_item(&agent("m1", "Hello")));
    assert_eq!(chunks(&all), vec!["He", "llo"]);
    assert_eq!(f.content, "Hello");
    assert_eq!(f.content_blocks.len(), 2);
}

#[test]
fn repeated_text_emits_nothing() {
    let mut f = ItemFolder::new();
    f.apply_item(&agent("m1", "Hi"));
    assert!(f.apply_item(&agent("m1", "Hi")).is_empty());
}

#[test]
fn non_suffix_update_emits_whole_text() {
    let mut f = ItemFolder::new();
    f.apply_item(&agent("m1", "Hello"));
    let ev = f.apply_item(&agent("m1", "Help"));
    assert_eq!(chunks(&ev), vec!["Help"]);
    assert_eq!(f.content, "HelloHelp");
}

#[test]
fn reasoning_goes_to_thinking_blocks_only() {
    let mut f = ItemFolder::new();
    f.apply_item(&CodexThreadItem::Reasoning(CodexReasoningItem { id: "r1".into(), text: "Th".into() }));
    let ev = f.apply_item(&CodexThreadItem::Reasoning(CodexReasoningItem {
        id: "r1".into(),
        text: "Think".into(),
    }));
    assert!(matches!(&ev[0], FolderEvent::Thinking { content } if content == "ink"));
    assert_eq!(f.content, "");
    assert!(matches!(&f.content_blocks[1], ContentBlock::Thinking { thinking } if thinking == "ink"));
}

#[test]
fn todo_snapshot_dedup() {
    let mut f = ItemFolder::new();
    let first = f.apply_item(&todo("t1", &[("a", false), ("b", false)]));
    let again = f.apply_item(&todo("t1", &[("a", false), ("b", false)]));
    assert_eq!(tool_uses(&first), vec!["t1:1"]);
    assert!(tool_uses(&again).is_empty());
    let changed = f.apply_item(&todo("t1", &[("a", true), ("b", false)]));
    assert_eq!(tool_uses(&changed), vec!["t1:2"]);
    assert_eq!(f.tool_calls.len(), 2);
    assert_eq!(f.tool_calls[1].name, "TodoWrite");
}

#[test]
fn ensure_tool_call_is_idempotent() {
    let mut f = ItemFolder::new();
    let a = f.ensure_tool_call("x", "Bash", ToolInput::Command { command: "ls".into() });
    let b = f.ensure_tool_call("x", "Other", ToolInput::Query { query: "q".into() });
    assert_eq!(tool_uses(&a), vec!["x"]);
    assert!(matches!(&a[1], FolderEvent::ToolBlock { tool_call_id } if tool_call_id == "x"));
    assert!(b.is_empty());
    assert_eq!(f.tool_calls.len(), 1);
    assert_eq!(f.tool_calls[0].name, "Bash");
}

#[test]
fn command_output_last_write_wins() {
    let mut f = ItemFolder::new();
    let ev = f.apply_item(&command("c1", "ls", "a"));
    assert_eq!(tool_uses(&ev), vec!["c1"]);
    assert!(matches!(&ev[2], FolderEvent::ToolResult { tool_use_id, output } if tool_use_id == "c1" && output == "a"));
    let ev = f.apply_item(&command("c1", "ls", "a\nb"));
    assert!(tool_uses(&ev).is_empty());
    assert_eq!(f.tool_calls.len(), 1);
    assert_eq!(f.tool_calls[0].output.as_deref(), Some("a\nb"));
    assert!(matches!(&f.tool_calls[0].input, ToolInput::Command { command } if command == "ls"));
}

#[test]
fn file_changes_map_to_edits() {
    let mut f = ItemFolder::new();
    let change = |p: &str| CodexFileUpdateChange { path: p.into(), kind: "update".into() };
    f.apply_item(&CodexThreadItem::FileChange(CodexFileChangeItem {
        id: "f1".into(),
        changes: vec![change("a.rs")],
        status: "completed".into(),
    }));
    f.apply_item(&CodexThreadItem::FileChange(CodexFileChangeItem {
        id: "f2".into(),
        changes: vec![change("b.rs"), change("c.rs")],
        status: "completed".into(),
    }));
    let ids: Vec<&str> = f.tool_calls.iter().map(|t| t.id.as_str()).collect();
    assert_eq!(ids, vec!["f1", "f2:0", "f2:1"]);
    assert!(f.tool_calls.iter().all(|t| t.name == "Edit"));
    assert_eq!(f.tool_calls[2].output.as_deref(), Some("status: completed"));
    assert!(matches!(&f.tool_calls[1].input, ToolInput::FileEdit { file_path, kind } if file_path == "b.rs" && kind == "update"));
}

#[test]
fn empty_file_change_has_empty_changes_input() {
    let mut f = ItemFolder::new();
    f.apply_item(&CodexThreadItem::FileChange(CodexFileChangeItem {
        id: "f0".into(),
        changes: vec![],
        status: "failed".into(),
    }));
    assert!(matches!(f.tool_calls[0].input, ToolInput::NoFileChanges));
    assert_eq!(f.tool_calls[0].output.as_deref(), Some("status: failed"));
}

#[test]
fn mcp_and_web_search_tools() {
    let mut f = ItemFolder::new();
    f.apply_item(&CodexThreadItem::McpToolCall(CodexMcpToolCallItem {
        id: "t1".into(),
        server: "gh".into(),
        tool: "issues".into(),
        arguments: "{\"repo\":\"x\"}".into(),
        result: Some(CodexMcpToolCallResult { content: vec![], structured_content: "{\n  \"n\": 1\n}".into() }),
        error: None,
        status: "completed".into(),
    }));
    f.apply_item(&CodexThreadItem::McpToolCall(CodexMcpToolCallItem {
        id: "t2".into(),
        server: "gh".into(),
        tool: "pulls".into(),
        arguments: "{}".into(),
        result: None,
        error: Some(CodexMcpToolCallError { message: "denied".into() }),
        status: "failed".into(),
    }));
    f.apply_item(&CodexThreadItem::WebSearch(CodexWebSearchItem { id: "w1".into(), query: "verus".into() }));
    assert_eq!(f.tool_calls[0].name, "MCP:gh:issues");
    assert_eq!(f.tool_calls[0].output.as_deref(), Some("{\n  \"n\": 1\n}"));
    assert_eq!(f.tool_calls[1].output.as_deref(), Some("error: denied"));
    assert_eq!(f.tool_calls[2].name, "WebSearch");
    assert_eq!(f.tool_calls[2].output, None);
}

#[test]
fn decimal_and_delta_helpers() {
    assert_eq!(decimal_string(0), "0");
    assert_eq!(decimal_string(407), "407");
    assert_eq!(text_delta_of("He", "Hello").as_deref(), Some("llo"));
    assert_eq!(text_delta_of("Hello", "Hello"), None);
    assert_eq!(text_delta_of("Hello", ""), None);
}

fn line(text: &str, event: Option<CodexExecEvent>) -> LogLine {
    LogLine { text: text.into(), is_json: text.starts_with('{'), event }
}

fn item_line(item: CodexThreadItem) -> LogLine {
    line("{\"type\":\"item.updated\"}", Some(CodexExecEvent::ItemUpdated { item }))
}

fn run_entry() -> RunEntry {
    RunEntry {
        run_id: "r1".into(),
        user_message_id: "u1".into(),
        user_message: "hi".into(),
        model: None,
        execution_mode: None,
        thinking_level: None,
        started_at: 7,
        ended_at: Some(9),
        status: RunStatus::Completed,
        assistant_message_id: Some("a1".into()),
        cancelled: false,
        recovered: false,
        agent: ChatAgent::Codex,
        claude_session_id: None,
        codex_session_id: None,
        pid: None,
        usage: None,
    }
}

#[test]
fn replay_matches_live_stream() {
    let lines = vec![
        line("{\"_run_meta\":true}", None),
        line("", None),
        line("{\"type\":\"thread.started\"}", Some(CodexExecEvent::ThreadStarted { thread_id: "th".into() })),
        item_line(agent("m1", "He")),
        item_line(command("c1", "ls", "out")),
        item_line(agent("m1", "Hello")),
        item_line(todo("t", &[("x", false)])),
        line("not json", None),
        line(
            "{\"type\":\"turn.completed\"}",
            Some(CodexExecEvent::TurnCompleted {
                usage: CodexUsage { input_tokens: 3, cached_input_tokens: 1, output_tokens: 2 },
            }),
        ),
    ];
    let mut live = DetachedRun::new();
    for l in &lines {
        assert!(live.on_line(l).is_ok());
    }
    let msg = parse_codex_run_to_message(&lines, &run_entry());
    assert_eq!(msg.id, "a1");
    assert_eq!(msg.timestamp, 7);
    assert_eq!(msg.content, live.folder.content);
    assert_eq!(msg.content, "Hello");
    assert_eq!(msg.tool_calls.len(), live.folder.tool_calls.len());
    for (a, b) in msg.tool_calls.iter().zip(live.folder.tool_calls.iter()) {
        assert_eq!(a.id, b.id);
        assert_eq!(a.name, b.name);
        assert_eq!(a.output, b.output);
    }
    assert_eq!(msg.content_blocks.len(), live.folder.content_blocks.len());
    assert!(live.completed);
    assert_eq!(live.codex_session_id, "th");
    let usage = live.usage.unwrap();
    assert_eq!((usage.input_tokens, usage.output_tokens, usage.cache_read_input_tokens), (3, 2, 1));
}

#[test]
fn replay_without_assistant_id_makes_one() {
    let mut run = run_entry();
    run.assistant_message_id = None;
    let msg = parse_codex_run_to_message(&vec![], &run);
    assert_eq!(msg.id.len(), 36);
    assert_eq!(msg.content, "");
}
