//! The payloads of the events sent to the UI, and the mapping of folder
//! events onto them.
use vstd::prelude::*;

use crate::item_folder::FolderEvent;
use crate::types::ToolInput;

verus! {

/// A text chunk of the assistant message.
#[derive(Debug, Clone)]
pub struct ChunkEvent {
    pub session_id: String,
    pub worktree_id: String,
    pub content: String,
}

/// A tool call that starts.
#[derive(Debug, Clone)]
pub struct ToolUseEvent {
    pub session_id: String,
    pub worktree_id: String,
    pub id: String,
    pub name: String,
    pub input: ToolInput,
    pub parent_tool_use_id: Option<String>,
}

/// Where a tool-use block stands in the content stream.
#[derive(Debug, Clone)]
pub struct ToolBlockEvent {
    pub session_id: String,
    pub worktree_id: String,
    pub tool_call_id: String,
}

/// A chunk of reasoning.
#[derive(Debug, Clone)]
pub struct ThinkingEvent {
    pub session_id: String,
    pub worktree_id: String,
    pub content: String,
}

/// The output of a tool call.
#[derive(Debug, Clone)]
pub struct ToolResultEvent {
    pub session_id: String,
    pub worktree_id: String,
    pub tool_use_id: String,
    pub output: String,
}

/// The run finished; sent at most once, last.
#[derive(Debug, Clone)]
pub struct DoneEvent {
    pub session_id: String,
    pub worktree_id: String,
}

#[derive(Debug, Clone)]
pub struct ErrorEvent {
    pub session_id: String,
    pub worktree_id: String,
    pub error: String,
}

/// The run was cancelled; `undo_send` restores the user's message to the input.
#[derive(Debug, Clone)]
pub struct CancelledEvent {
    pub session_id: String,
    pub worktree_id: String,
    pub undo_send: bool,
}

/// A problem in the stream that the run survives.
#[derive(Debug, Clone)]
pub struct StreamWarningEvent {
    pub session_id: String,
    pub worktree_id: String,
    pub message: String,
    pub line_preview: Option<String>,
}

/// An event for the UI, with the name it is sent under.
#[derive(Debug, Clone)]
pub enum UiEvent {
    Chunk(ChunkEvent),
    Thinking(ThinkingEvent),
    ToolUse(ToolUseEvent),
    ToolBlock(ToolBlockEvent),
    ToolResult(ToolResultEvent),
    Error(ErrorEvent),
    Done(DoneEvent),
    Cancelled(CancelledEvent),
}

impl UiEvent {
    pub open spec fn name_spec(&self) -> Seq<char> {
        match self {
            UiEvent::Chunk(_) => "chat:chunk"@,
            UiEvent::Thinking(_) => "chat:thinking"@,
            UiEvent::ToolUse(_) => "chat:tool_use"@,
            UiEvent::ToolBlock(_) => "chat:tool_block"@,
            UiEvent::ToolResult(_) => "chat:tool_result"@,
            UiEvent::Error(_) => "chat:error"@,
            UiEvent::Done(_) => "chat:done"@,
            UiEvent::Cancelled(_) => "chat:cancelled"@,
        }
    }

    /// The name the event is sent under.
    pub fn name(&self) -> (r: &'static str)
        ensures
            r@ == self.name_spec(),
    {
        match self {
            UiEvent::Chunk(_) => "chat:chunk",
            UiEvent::Thinking(_) => "chat:thinking",
            UiEvent::ToolUse(_) => "chat:tool_use",
            UiEvent::ToolBlock(_) => "chat:tool_block",
            UiEvent::ToolResult(_) => "chat:tool_result",
            UiEvent::Error(_) => "chat:error",
            UiEvent::Done(_) => "chat:done",
            UiEvent::Cancelled(_) => "chat:cancelled",
        }
    }
}

/// The UI event for a folder event of session `session_id`: the same payload,
/// with the session and worktree ids.
pub fn to_ui_event(session_id: &str, worktree_id: &str, e: FolderEvent) -> (r: UiEvent)
    ensures
        match (e, r) {
            (FolderEvent::Chunk { content }, UiEvent::Chunk(c)) => c.content@ == content@
                && c.session_id@ == session_id@ && c.worktree_id@ == worktree_id@,
            (FolderEvent::Thinking { content }, UiEvent::Thinking(c)) => c.content@ == content@
                && c.session_id@ == session_id@ && c.worktree_id@ == worktree_id@,
            (FolderEvent::ToolUse { id, name, input }, UiEvent::ToolUse(c)) => c.id@ == id@
                && c.name@ == name@ && c.input@ == input@ && c.parent_tool_use_id is None
                && c.session_id@ == session_id@ && c.worktree_id@ == worktree_id@,
            (FolderEvent::ToolBlock { tool_call_id }, UiEvent::ToolBlock(c)) => c.tool_call_id@
                == tool_call_id@ && c.session_id@ == session_id@ && c.worktree_id@
                == worktree_id@,
            (FolderEvent::ToolResult { tool_use_id, output }, UiEvent::ToolResult(c)) =>
                c.tool_use_id@ == tool_use_id@ && c.output@ == output@ && c.session_id@
                == session_id@ && c.worktree_id@ == worktree_id@,
            (FolderEvent::Error { message }, UiEvent::Error(c)) => c.error@ == message@
                && c.session_id@ == session_id@ && c.worktree_id@ == worktree_id@,
            _ => false,
        },
{
    let session_id = crate::text::owned(session_id);
    let worktree_id = crate::text::owned(worktree_id);
    match e {
        FolderEvent::Chunk { content } => UiEvent::Chunk(
            ChunkEvent { session_id, worktree_id, content },
        ),
        FolderEvent::Thinking { content } => UiEvent::Thinking(
            ThinkingEvent { session_id, worktree_id, content },
        ),
        FolderEvent::ToolUse { id, name, input } => UiEvent::ToolUse(
            ToolUseEvent { session_id, worktree_id, id, name, input, parent_tool_use_id: None },
        ),
        FolderEvent::ToolBlock { tool_call_id } => UiEvent::ToolBlock(
            ToolBlockEvent { session_id, worktree_id, tool_call_id },
        ),
        FolderEvent::ToolResult { tool_use_id, output } => UiEvent::ToolResult(
            ToolResultEvent { session_id, worktree_id, tool_use_id, output },
        ),
        FolderEvent::Error { message } => UiEvent::Error(
            ErrorEvent { session_id, worktree_id, error: message },
        ),
    }
}

} // verus!
