//! Events and thread items of the CLI's JSON event stream, as plain data.
//!
//! Decoding a line of JSON into these types happens at the edge of the
//! library; payloads that are free-form JSON (tool arguments, structured
//! results) are carried as JSON text.
use vstd::prelude::*;

verus! {

/// Token counts reported when a turn completes.
#[derive(Debug, Clone, Copy, PartialEq, Eq, Structural)]
pub struct CodexUsage {
    pub input_tokens: u64,
    pub cached_input_tokens: u64,
    pub output_tokens: u64,
}

#[derive(Debug, Clone)]
pub struct CodexThreadError {
    pub message: String,
}

/// A top-level event. Lines that decode to none of these are skipped.
#[derive(Debug, Clone)]
pub enum CodexExecEvent {
    ThreadStarted { thread_id: String },
    TurnStarted,
    TurnCompleted { usage: CodexUsage },
    TurnFailed { error: CodexThreadError },
    ItemStarted { item: CodexThreadItem },
    ItemUpdated { item: CodexThreadItem },
    ItemCompleted { item: CodexThreadItem },
    StreamError { message: String },
}

#[derive(Debug, Clone)]
pub struct CodexCommandExecutionItem {
    pub id: String,
    pub command: String,
    pub aggregated_output: String,
    pub exit_code: Option<i64>,
    pub status: String,
}

#[derive(Debug, Clone)]
pub struct CodexFileUpdateChange {
    pub path: String,
    pub kind: String,
}

#[derive(Debug, Clone)]
pub struct CodexFileChangeItem {
    pub id: String,
    pub changes: Vec<CodexFileUpdateChange>,
    pub status: String,
}

/// The result of a tool call on a tool server: its content parts and its
/// structured content, each as JSON text (the structured content pretty-printed).
#[derive(Debug, Clone)]
pub struct CodexMcpToolCallResult {
    pub content: Vec<String>,
    pub structured_content: String,
}

#[derive(Debug, Clone)]
pub struct CodexMcpToolCallError {
    pub message: String,
}

/// A call of `tool` on tool server `server`; `arguments` is JSON text.
#[derive(Debug, Clone)]
pub struct CodexMcpToolCallItem {
    pub id: String,
    pub server: String,
    pub tool: String,
    pub arguments: String,
    pub result: Option<CodexMcpToolCallResult>,
    pub error: Option<CodexMcpToolCallError>,
    pub status: String,
}

#[derive(Debug, Clone)]
pub struct CodexAgentMessageItem {
    pub id: String,
    pub text: String,
}

#[derive(Debug, Clone)]
pub struct CodexReasoningItem {
    pub id: String,
    pub text: String,
}

#[derive(Debug, Clone)]
pub struct CodexWebSearchItem {
    pub id: String,
    pub query: String,
}

#[derive(Debug, Clone)]
pub struct CodexErrorItem {
    pub id: String,
    pub message: String,
}

#[derive(Debug, Clone)]
pub struct CodexTodoItem {
    pub text: String,
    pub completed: bool,
}

#[derive(Debug, Clone)]
pub struct CodexTodoListItem {
    pub id: String,
    pub items: Vec<CodexTodoItem>,
}

/// A thread item; the CLI re-emits an item under the same id as it changes.
#[derive(Debug, Clone)]
pub enum CodexThreadItem {
    AgentMessage(CodexAgentMessageItem),
    Reasoning(CodexReasoningItem),
    CommandExecution(CodexCommandExecutionItem),
    FileChange(CodexFileChangeItem),
    McpToolCall(CodexMcpToolCallItem),
    WebSearch(CodexWebSearchItem),
    TodoList(CodexTodoListItem),
    Error(CodexErrorItem),
}

/// The texts and flags of a todo list.
pub open spec fn todo_view(items: Seq<CodexTodoItem>) -> Seq<(Seq<char>, bool)> {
    items.map_values(|t: CodexTodoItem| (t.text@, t.completed))
}

/// A copy of a todo list.
pub fn copy_todos(items: &Vec<CodexTodoItem>) -> (r: Vec<CodexTodoItem>)
    ensures
        todo_view(r@) == todo_view(items@),
{
    let mut r: Vec<CodexTodoItem> = Vec::new();
    let mut i: usize = 0;
    while i < items.len()
        invariant
            i <= items@.len(),
            todo_view(r@) == todo_view(items@.subrange(0, i as int)),
        decreases items@.len() - i,
    {
        let t = CodexTodoItem { text: items[i].text.clone(), completed: items[i].completed };
        assert(t.text@ == items@[i as int].text@);
        let ghost before = r@;
        r.push(t);
        assert(r@ == before.push(t));
        assert(items@.subrange(0, i + 1) =~= items@.subrange(0, i as int).push(items@[i as int]));
        assert(todo_view(r@) =~= todo_view(before).push((t.text@, t.completed)));
        assert(todo_view(items@.subrange(0, i + 1)) =~= todo_view(items@.subrange(0, i as int)).push(
            (items@[i as int].text@, items@[i as int].completed),
        ));
        i = i + 1;
    }
    assert(items@.subrange(0, items@.len() as int) =~= items@);
    r
}

/// Whether two todo lists hold the same texts and flags, in order.
pub fn same_todos(a: &Vec<CodexTodoItem>, b: &Vec<CodexTodoItem>) -> (r: bool)
    ensures
        r == (todo_view(a@) == todo_view(b@)),
{
    if a.len() != b.len() {
        assert(todo_view(a@).len() != todo_view(b@).len());
        return false;
    }
    let mut i: usize = 0;
    while i < a.len()
        invariant
            a@.len() == b@.len(),
            i <= a@.len(),
            forall|j: int| 0 <= j < i ==> #[trigger] todo_view(a@)[j] == todo_view(b@)[j],
        decreases a@.len() - i,
    {
        let same_text = crate::text::str_eq(a[i].text.as_str(), b[i].text.as_str());
        if !same_text || a[i].completed != b[i].completed {
            assert(todo_view(a@)[i as int] != todo_view(b@)[i as int]);
            return false;
        }
        i = i + 1;
    }
    assert(todo_view(a@) =~= todo_view(b@));
    true
}

} // verus!
