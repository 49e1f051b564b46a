use jean::claude_log::{ClaudeBlock, ClaudeMessageKind, ClaudeRecord};
use jean::events::{to_ui_event, UiEvent};
use jean::item_folder::FolderEvent;
use jean::run_log::parse_run_to_message;
use jean::types::{ChatAgent, ContentBlock, RunEntry, RunStatus, ToolInput};

fn rec(parent: Option<&str>, kind: ClaudeMessageKind) -> ClaudeRecord {
    ClaudeRecord { is_meta: false, parent_tool_use_id: parent.map(str::to_string), kind }
}

fn run(agent: ChatAgent) -> RunEntry {
    RunEntry {
        run_id: "r".into(),
        user_message_id: "u".into(),
        user_message: "q".into(),
        model: None,
        execution_mode: None,
        thinking_level: None,
        started_at: 1,
        ended_at: Some(2),
        status: RunStatus::Completed,
        assistant_message_id: Some("a".into()),
        cancelled: false,
        recovered: false,
        agent,
        claude_session_id: None,
        codex_session_id: None,
        pid: None,
        usage: None,
    }
}

#[test]
fn claude_replay_rebuilds_text_tools_and_results() {
    let records = vec![
        ClaudeRecord { is_meta: true, parent_tool_use_id: None, kind: ClaudeMessageKind::Other },
        rec(None, ClaudeMessageKind::Assistant {
            blocks: vec![
                ClaudeBlock::Text { text: "(no content)".into() },
                ClaudeBlock::Thinking { thinking: "hmm".into() },
                ClaudeBlock::Text { text: "Hi".into() },
                ClaudeBlock::ToolUse { id: "t1".into(), name: "Bash".into(), input: "{\"command\":\"ls\"}".into() },
            ],
        }),
        rec(Some("p1"), ClaudeMessageKind::User {
            blocks: vec![ClaudeBlock::ToolResult { tool_use_id: "t1".into(), content: "a.rs".into() }],
        }),
        rec(None, ClaudeMessageKind::Assistant {
            blocks: vec![ClaudeBlock::ToolUse { id: "t2".into(), name: "Read".into(), input: "null".into() }],
        }),
        rec(None, ClaudeMessageKind::Result { result: Some("ignored".into()) }),
    ];
    let msg = parse_run_to_message(&vec![], &records, &run(ChatAgent::Claude));
    assert_eq!(msg.content, "Hi");
    assert_eq!(msg.content_blocks.len(), 4);
    assert!(matches!(&msg.content_blocks[0], ContentBlock::Thinking { thinking } if thinking == "hmm"));
    assert_eq!(msg.tool_calls[0].output.as_deref(), Some("a.rs"));
    assert_eq!(msg.tool_calls[0].parent_tool_use_id, None);
    assert_eq!(msg.tool_calls[1].parent_tool_use_id.as_deref(), Some("p1"));
    assert!(matches!(&msg.tool_calls[1].input, ToolInput::Json { json } if json == "null"));
}

#[test]
fn claude_result_fills_empty_content() {
    let records = vec![rec(None, ClaudeMessageKind::Result { result: Some("Done.".into()) })];
    let msg = parse_run_to_message(&vec![], &records, &run(ChatAgent::Claude));
    assert_eq!(msg.content, "Done.");
    let codex = parse_run_to_message(&vec![], &records, &run(ChatAgent::Codex));
    assert_eq!(codex.content, "");
}

#[test]
fn ui_events_carry_session_and_name() {
    let e = to_ui_event("s1", "w1", FolderEvent::Chunk { content: "He".into() });
    assert_eq!(e.name(), "chat:chunk");
    match e {
        UiEvent::Chunk(c) => {
            assert_eq!(c.session_id, "s1");
            assert_eq!(c.worktree_id, "w1");
            assert_eq!(c.content, "He");
        }
        _ => panic!("expected a chunk"),
    }
    let e = to_ui_event("s1", "w1", FolderEvent::ToolBlock { tool_call_id: "x".into() });
    assert_eq!(e.name(), "chat:tool_block");
}
