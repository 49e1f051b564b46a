//! The chat data model: tool calls, content blocks, messages and run records.
use vstd::prelude::*;

use crate::codex_exec::{copy_todos, todo_view, CodexTodoItem};

verus! {

/// The input of a tool call. The structured variants stand for the JSON
/// objects `{command}`, `{file_path, kind}`, `{changes: []}`, `{query}` and
/// `{todos: [{content, activeForm, status}]}`; `Json` holds any other input as
/// JSON text.
#[derive(Debug, Clone)]
pub enum ToolInput {
    Command { command: String },
    FileEdit { file_path: String, kind: String },
    NoFileChanges,
    Query { query: String },
    Todos { todos: Vec<CodexTodoItem> },
    Json { json: String },
}

pub enum InputV {
    Command(Seq<char>),
    FileEdit(Seq<char>, Seq<char>),
    NoFileChanges,
    Query(Seq<char>),
    Todos(Seq<(Seq<char>, bool)>),
    Json(Seq<char>),
}

impl View for ToolInput {
    type V = InputV;

    open spec fn view(&self) -> InputV {
        match self {
            ToolInput::Command { command } => InputV::Command(command@),
            ToolInput::FileEdit { file_path, kind } => InputV::FileEdit(file_path@, kind@),
            ToolInput::NoFileChanges => InputV::NoFileChanges,
            ToolInput::Query { query } => InputV::Query(query@),
            ToolInput::Todos { todos } => InputV::Todos(todo_view(todos@)),
            ToolInput::Json { json } => InputV::Json(json@),
        }
    }
}

impl ToolInput {
    /// A copy with the same contents.
    pub fn duplicate(&self) -> (r: ToolInput)
        ensures
            r@ == self@,
    {
        match self {
            ToolInput::Command { command } => ToolInput::Command { command: command.clone() },
            ToolInput::FileEdit { file_path, kind } => ToolInput::FileEdit {
                file_path: file_path.clone(),
                kind: kind.clone(),
            },
            ToolInput::NoFileChanges => ToolInput::NoFileChanges,
            ToolInput::Query { query } => ToolInput::Query { query: query.clone() },
            ToolInput::Todos { todos } => ToolInput::Todos { todos: copy_todos(todos) },
            ToolInput::Json { json } => ToolInput::Json { json: json.clone() },
        }
    }
}

/// One tool call of an assistant message; ids are unique within a run.
#[derive(Debug, Clone)]
pub struct ToolCall {
    pub id: String,
    pub name: String,
    pub input: ToolInput,
    pub output: Option<String>,
    pub parent_tool_use_id: Option<String>,
}

pub struct ToolCallV {
    pub id: Seq<char>,
    pub name: Seq<char>,
    pub input: InputV,
    pub output: Option<Seq<char>>,
    pub parent_tool_use_id: Option<Seq<char>>,
}

pub open spec fn opt_view(s: Option<String>) -> Option<Seq<char>> {
    match s {
        Some(x) => Some(x@),
        None => None,
    }
}

impl View for ToolCall {
    type V = ToolCallV;

    open spec fn view(&self) -> ToolCallV {
        ToolCallV {
            id: self.id@,
            name: self.name@,
            input: self.input@,
            output: opt_view(self.output),
            parent_tool_use_id: opt_view(self.parent_tool_use_id),
        }
    }
}

/// A block of an assistant message, in stream order.
#[derive(Debug, Clone)]
pub enum ContentBlock {
    Text { text: String },
    Thinking { thinking: String },
    ToolUse { tool_call_id: String },
}

pub enum BlockV {
    Text(Seq<char>),
    Thinking(Seq<char>),
    ToolUse(Seq<char>),
}

impl View for ContentBlock {
    type V = BlockV;

    open spec fn view(&self) -> BlockV {
        match self {
            ContentBlock::Text { text } => BlockV::Text(text@),
            ContentBlock::Thinking { thinking } => BlockV::Thinking(thinking@),
            ContentBlock::ToolUse { tool_call_id } => BlockV::ToolUse(tool_call_id@),
        }
    }
}

pub open spec fn calls_view(v: Seq<ToolCall>) -> Seq<ToolCallV> {
    v.map_values(|t: ToolCall| t@)
}

pub open spec fn blocks_view(v: Seq<ContentBlock>) -> Seq<BlockV> {
    v.map_values(|b: ContentBlock| b@)
}

/// Token usage of one response.
#[derive(Debug, Clone, Copy, PartialEq, Eq, Structural)]
pub struct UsageData {
    pub input_tokens: u64,
    pub output_tokens: u64,
    pub cache_read_input_tokens: u64,
    pub cache_creation_input_tokens: u64,
}

/// The agent CLI that served a run.
#[derive(Debug, Clone, Copy, PartialEq, Eq, Structural)]
pub enum ChatAgent {
    Claude,
    Codex,
}

#[derive(Debug, Clone, Copy, PartialEq, Eq, Structural)]
pub enum MessageRole {
    User,
    Assistant,
}

/// Where a run is in its lifecycle.
#[derive(Debug, Clone, Copy, PartialEq, Eq, Structural)]
pub enum RunStatus {
    Running,
    Completed,
    Cancelled,
    Crashed,
    Resumable,
}

/// The record of one run in a session's metadata.
#[derive(Debug, Clone)]
pub struct RunEntry {
    pub run_id: String,
    pub user_message_id: String,
    pub user_message: String,
    pub model: Option<String>,
    pub execution_mode: Option<String>,
    pub thinking_level: Option<String>,
    pub started_at: u64,
    pub ended_at: Option<u64>,
    pub status: RunStatus,
    pub assistant_message_id: Option<String>,
    pub cancelled: bool,
    pub recovered: bool,
    pub agent: ChatAgent,
    pub claude_session_id: Option<String>,
    pub codex_session_id: Option<String>,
    pub pid: Option<u32>,
    pub usage: Option<UsageData>,
}

/// A chat message, as the UI shows it.
#[derive(Debug, Clone)]
pub struct ChatMessage {
    pub id: String,
    pub session_id: String,
    pub role: MessageRole,
    pub content: String,
    pub timestamp: u64,
    pub tool_calls: Vec<ToolCall>,
    pub content_blocks: Vec<ContentBlock>,
    pub cancelled: bool,
    pub plan_approved: bool,
    pub model: Option<String>,
    pub execution_mode: Option<String>,
    pub thinking_level: Option<String>,
    pub recovered: bool,
    pub usage: Option<UsageData>,
}

} // verus!
