//! The item folder: turns streamed thread items into message text, content
//! blocks, tool calls and UI events. The live supervisors and the replay of a
//! stored run log both run this one folder, so both reach the same message.
use vstd::prelude::*;

use crate::assoc::{assign, assoc, find_key, lemma_assoc_absent, lemma_assoc_found};
use crate::codex_exec::{
    copy_todos, same_todos, todo_view, CodexAgentMessageItem, CodexFileChangeItem,
    CodexMcpToolCallItem, CodexReasoningItem, CodexThreadItem, CodexTodoItem, CodexTodoListItem,
};
use crate::text::{is_prefix, owned, starts_with, str_eq};
use crate::types::{
    blocks_view, calls_view, opt_view, BlockV, ContentBlock, InputV, ToolCall, ToolCallV, ToolInput,
};

verus! {

/// What the folder asks the UI to show, without the session it belongs to.
#[derive(Debug, Clone)]
pub enum FolderEvent {
    Chunk { content: String },
    Thinking { content: String },
    ToolUse { id: String, name: String, input: ToolInput },
    ToolBlock { tool_call_id: String },
    ToolResult { tool_use_id: String, output: String },
    Error { message: String },
}

pub enum EventV {
    Chunk(Seq<char>),
    Thinking(Seq<char>),
    ToolUse(Seq<char>, Seq<char>, InputV),
    ToolBlock(Seq<char>),
    ToolResult(Seq<char>, Seq<char>),
    Error(Seq<char>),
}

impl View for FolderEvent {
    type V = EventV;

    open spec fn view(&self) -> EventV {
        match self {
            FolderEvent::Chunk { content } => EventV::Chunk(content@),
            FolderEvent::Thinking { content } => EventV::Thinking(content@),
            FolderEvent::ToolUse { id, name, input } => EventV::ToolUse(id@, name@, input@),
            FolderEvent::ToolBlock { tool_call_id } => EventV::ToolBlock(tool_call_id@),
            FolderEvent::ToolResult { tool_use_id, output } => EventV::ToolResult(
                tool_use_id@,
                output@,
            ),
            FolderEvent::Error { message } => EventV::Error(message@),
        }
    }
}

pub open spec fn events_view(v: Seq<FolderEvent>) -> Seq<EventV> {
    v.map_values(|e: FolderEvent| e@)
}

/// The working state of one run: the message built so far, and per item id
/// the last text seen, the last todo snapshot and the number of snapshots.
pub struct ItemFolder {
    pub content: String,
    pub tool_calls: Vec<ToolCall>,
    pub content_blocks: Vec<ContentBlock>,
    pub agent_message_seen: Vec<(String, String)>,
    pub reasoning_seen: Vec<(String, String)>,
    pub todo_list_seen: Vec<(String, Vec<CodexTodoItem>)>,
    pub todo_list_seq: Vec<(String, usize)>,
}

pub struct FolderV {
    pub content: Seq<char>,
    pub tool_calls: Seq<ToolCallV>,
    pub blocks: Seq<BlockV>,
    pub agent_seen: Map<Seq<char>, Seq<char>>,
    pub reasoning_seen: Map<Seq<char>, Seq<char>>,
    pub todo_seen: Map<Seq<char>, Seq<(Seq<char>, bool)>>,
    pub todo_seq: Map<Seq<char>, nat>,
}

pub open spec fn str_val() -> spec_fn(String) -> Seq<char> {
    |s: String| s@
}

pub open spec fn todos_val() -> spec_fn(Vec<CodexTodoItem>) -> Seq<(Seq<char>, bool)> {
    |v: Vec<CodexTodoItem>| todo_view(v@)
}

pub open spec fn count_val() -> spec_fn(usize) -> nat {
    |n: usize| n as nat
}

impl View for ItemFolder {
    type V = FolderV;

    open spec fn view(&self) -> FolderV {
        FolderV {
            content: self.content@,
            tool_calls: calls_view(self.tool_calls@),
            blocks: blocks_view(self.content_blocks@),
            agent_seen: assoc(self.agent_message_seen@, str_val()),
            reasoning_seen: assoc(self.reasoning_seen@, str_val()),
            todo_seen: assoc(self.todo_list_seen@, todos_val()),
            todo_seq: assoc(self.todo_list_seq@, count_val()),
        }
    }
}

pub open spec fn unique_ids(calls: Seq<ToolCallV>) -> bool {
    forall|i: int, j: int| 0 <= i < j < calls.len() ==> calls[i].id != calls[j].id
}

pub open spec fn has_tool(calls: Seq<ToolCallV>, id: Seq<char>) -> bool {
    exists|i: int| 0 <= i < calls.len() && #[trigger] calls[i].id == id
}

pub open spec fn empty_folder() -> FolderV {
    FolderV {
        content: Seq::empty(),
        tool_calls: Seq::empty(),
        blocks: Seq::empty(),
        agent_seen: Map::empty(),
        reasoning_seen: Map::empty(),
        todo_seen: Map::empty(),
        todo_seq: Map::empty(),
    }
}

/// The text last seen under `id`, empty if none.
pub open spec fn seen_text(m: Map<Seq<char>, Seq<char>>, id: Seq<char>) -> Seq<char> {
    if m.contains_key(id) {
        m[id]
    } else {
        Seq::empty()
    }
}

/// What a cumulative text update contributes: the new suffix when the new text
/// extends the text seen before, else (the rare fallback) the whole new text
/// when it is non-empty and differs; nothing when nothing is new.
pub open spec fn text_delta(prev: Seq<char>, new: Seq<char>) -> Option<Seq<char>> {
    if is_prefix(prev, new) {
        if new.len() > prev.len() {
            Some(new.subrange(prev.len() as int, new.len() as int))
        } else {
            None
        }
    } else if new.len() > 0 && new != prev {
        Some(new)
    } else {
        None
    }
}

/// Creates tool call `id` unless it exists: a tool is created once per id.
pub open spec fn ensure_spec(s: FolderV, id: Seq<char>, name: Seq<char>, input: InputV) -> (
    FolderV,
    Seq<EventV>,
) {
    if has_tool(s.tool_calls, id) {
        (s, Seq::empty())
    } else {
        (
            FolderV {
                tool_calls: s.tool_calls.push(
                    ToolCallV { id, name, input, output: None, parent_tool_use_id: None },
                ),
                blocks: s.blocks.push(BlockV::ToolUse(id)),
                ..s
            },
            seq![EventV::ToolUse(id, name, input), EventV::ToolBlock(id)],
        )
    }
}

/// Sets the output of tool call `id` (the last write wins) and reports it.
pub open spec fn update_spec(s: FolderV, id: Seq<char>, out: Seq<char>) -> (FolderV, Seq<EventV>) {
    (
        FolderV {
            tool_calls: s.tool_calls.map_values(
                |t: ToolCallV|
                    if t.id == id {
                        ToolCallV { output: Some(out), ..t }
                    } else {
                        t
                    },
            ),
            ..s
        },
        seq![EventV::ToolResult(id, out)],
    )
}

/// `ensure_spec` followed by `update_spec` on the same id.
pub open spec fn ensure_update_spec(
    s: FolderV,
    id: Seq<char>,
    name: Seq<char>,
    input: InputV,
    out: Seq<char>,
) -> (FolderV, Seq<EventV>) {
    let (s1, e1) = ensure_spec(s, id, name, input);
    let (s2, e2) = update_spec(s1, id, out);
    (s2, e1 + e2)
}

pub open spec fn digit_char(d: nat) -> char {
    if d == 0 {
        '0'
    } else if d == 1 {
        '1'
    } else if d == 2 {
        '2'
    } else if d == 3 {
        '3'
    } else if d == 4 {
        '4'
    } else if d == 5 {
        '5'
    } else if d == 6 {
        '6'
    } else if d == 7 {
        '7'
    } else if d == 8 {
        '8'
    } else {
        '9'
    }
}

/// The decimal digits of `n`.
pub open spec fn decimal(n: nat) -> Seq<char>
    decreases n,
{
    if n < 10 {
        seq![digit_char(n)]
    } else {
        decimal(n / 10).push(digit_char(n % 10))
    }
}

/// `<base>:<n>`, the id of a synthetic tool call.
pub open spec fn sub_id(base: Seq<char>, n: nat) -> Seq<char> {
    base + ":"@ + decimal(n)
}

pub open spec fn status_output(status: Seq<char>) -> Seq<char> {
    "status: "@ + status
}

/// The first `k` changes of a multi-file change, one synthetic edit each.
pub open spec fn changes_spec(s: FolderV, fc: CodexFileChangeItem, k: nat) -> (FolderV, Seq<EventV>)
    decreases k,
{
    if k == 0 {
        (s, Seq::empty())
    } else {
        let (s1, e1) = changes_spec(s, fc, (k - 1) as nat);
        let c = fc.changes@[k - 1];
        let (s2, e2) = ensure_update_spec(
            s1,
            sub_id(fc.id@, (k - 1) as nat),
            "Edit"@,
            InputV::FileEdit(c.path@, c.kind@),
            status_output(fc.status@),
        );
        (s2, e1 + e2)
    }
}

pub open spec fn next_count(n: nat) -> nat {
    if n < usize::MAX {
        n + 1
    } else {
        n
    }
}

/// What one thread item does to the folder, and the events it emits.
pub open spec fn apply_spec(s: FolderV, item: CodexThreadItem) -> (FolderV, Seq<EventV>) {
    match item {
        CodexThreadItem::AgentMessage(m) => {
            let d = text_delta(seen_text(s.agent_seen, m.id@), m.text@);
            let s1 = FolderV { agent_seen: s.agent_seen.insert(m.id@, m.text@), ..s };
            match d {
                Some(t) => (
                    FolderV {
                        content: s.content + t,
                        blocks: s.blocks.push(BlockV::Text(t)),
                        ..s1
                    },
                    seq![EventV::Chunk(t)],
                ),
                None => (s1, Seq::empty()),
            }
        },
        CodexThreadItem::Reasoning(r) => {
            let d = text_delta(seen_text(s.reasoning_seen, r.id@), r.text@);
            let s1 = FolderV { reasoning_seen: s.reasoning_seen.insert(r.id@, r.text@), ..s };
            match d {
                Some(t) => (
                    FolderV { blocks: s.blocks.push(BlockV::Thinking(t)), ..s1 },
                    seq![EventV::Thinking(t)],
                ),
                None => (s1, Seq::empty()),
            }
        },
        CodexThreadItem::CommandExecution(c) => ensure_update_spec(
            s,
            c.id@,
            "Bash"@,
            InputV::Command(c.command@),
            c.aggregated_output@,
        ),
        CodexThreadItem::FileChange(fc) => {
            if fc.changes@.len() <= 1 {
                let input = if fc.changes@.len() == 1 {
                    InputV::FileEdit(fc.changes@[0].path@, fc.changes@[0].kind@)
                } else {
                    InputV::NoFileChanges
                };
                ensure_update_spec(s, fc.id@, "Edit"@, input, status_output(fc.status@))
            } else {
                changes_spec(s, fc, fc.changes@.len())
            }
        },
        CodexThreadItem::McpToolCall(tc) => {
            let name = "MCP:"@ + tc.server@ + ":"@ + tc.tool@;
            let (s1, e1) = ensure_spec(s, tc.id@, name, InputV::Json(tc.arguments@));
            match tc.result {
                Some(r) => {
                    let (s2, e2) = update_spec(s1, tc.id@, r.structured_content@);
                    (s2, e1 + e2)
                },
                None => match tc.error {
                    Some(err) => {
                        let (s2, e2) = update_spec(s1, tc.id@, "error: "@ + err.message@);
                        (s2, e1 + e2)
                    },
                    None => (s1, e1),
                },
            }
        },
        CodexThreadItem::WebSearch(ws) => ensure_spec(
            s,
            ws.id@,
            "WebSearch"@,
            InputV::Query(ws.query@),
        ),
        CodexThreadItem::TodoList(t) => {
            let snap = todo_view(t.items@);
            if s.todo_seen.contains_key(t.id@) && s.todo_seen[t.id@] == snap {
                (s, Seq::empty())
            } else {
                let n = next_count(
                    if s.todo_seq.contains_key(t.id@) {
                        s.todo_seq[t.id@]
                    } else {
                        0
                    },
                );
                let s1 = FolderV {
                    todo_seen: s.todo_seen.insert(t.id@, snap),
                    todo_seq: s.todo_seq.insert(t.id@, n),
                    ..s
                };
                ensure_spec(s1, sub_id(t.id@, n), "TodoWrite"@, InputV::Todos(snap))
            }
        },
        CodexThreadItem::Error(e) => (s, seq![EventV::Error(e.message@)]),
    }
}

/// Creating a tool call is idempotent by id: after a first call for `id` the
/// folder holds a tool call with that id, ids stay unique, and a second call
/// with the same id (whatever its name and input) changes nothing and emits
/// nothing. From a folder without `id`, the two calls together emit exactly one
/// tool-use event.
pub proof fn lemma_ensure_idempotent(
    s: FolderV,
    id: Seq<char>,
    name1: Seq<char>,
    input1: InputV,
    name2: Seq<char>,
    input2: InputV,
)
    requires
        unique_ids(s.tool_calls),
    ensures
        ({
            let (s1, e1) = ensure_spec(s, id, name1, input1);
            let (s2, e2) = ensure_spec(s1, id, name2, input2);
            &&& has_tool(s1.tool_calls, id)
            &&& unique_ids(s1.tool_calls)
            &&& s2 == s1
            &&& e2.len() == 0
            &&& (!has_tool(s.tool_calls, id) ==> e1 == seq![
                EventV::ToolUse(id, name1, input1),
                EventV::ToolBlock(id),
            ] && s1.tool_calls.len() == s.tool_calls.len() + 1)
            &&& (has_tool(s.tool_calls, id) ==> s1 == s && e1.len() == 0)
        }),
{
    let (s1, e1) = ensure_spec(s, id, name1, input1);
    if !has_tool(s.tool_calls, id) {
        let n = s.tool_calls.len() as int;
        assert(s1.tool_calls[n].id == id);
        assert forall|i: int, j: int| 0 <= i < j < s1.tool_calls.len() implies s1.tool_calls[i].id
            != s1.tool_calls[j].id by {
            if j == n {
                assert(s1.tool_calls[i] == s.tool_calls[i]);
            }
        }
    }
}

/// The text the chunks of one item add up to, starting from `prev` and
/// folding the cumulative texts `texts` in order.
pub open spec fn emitted(prev: Seq<char>, texts: Seq<Seq<char>>) -> Seq<char>
    decreases texts.len(),
{
    if texts.len() == 0 {
        Seq::empty()
    } else {
        let d = match text_delta(prev, texts[0]) {
            Some(t) => t,
            None => Seq::empty(),
        };
        d + emitted(texts[0], texts.drop_first())
    }
}

/// Delta monotonicity: when each text of an item extends the one before it
/// (the CLI's cumulative updates), the deltas emitted for the item, appended to
/// the text seen first, give exactly the last text observed; from an unseen
/// item, the deltas add up to the last text.
pub proof fn lemma_deltas_concatenate(prev: Seq<char>, texts: Seq<Seq<char>>)
    requires
        texts.len() > 0,
        is_prefix(prev, texts[0]),
        forall|k: int| 0 <= k < texts.len() - 1 ==> is_prefix(#[trigger] texts[k], texts[k + 1]),
    ensures
        prev + emitted(prev, texts) == texts.last(),
    decreases texts.len(),
{
    let t0 = texts[0];
    let d = match text_delta(prev, t0) {
        Some(t) => t,
        None => Seq::<char>::empty(),
    };
    assert(prev + d =~= t0);
    if texts.len() == 1 {
        assert(emitted(t0, texts.drop_first()) =~= Seq::empty());
        assert(prev + emitted(prev, texts) =~= t0);
    } else {
        let rest = texts.drop_first();
        assert(is_prefix(texts[0], texts[1]));
        assert forall|k: int| 0 <= k < rest.len() - 1 implies is_prefix(
            #[trigger] rest[k],
            rest[k + 1],
        ) by {
            assert(rest[k] == texts[k + 1]);
            assert(is_prefix(texts[k + 1], texts[k + 2]));
        }
        lemma_deltas_concatenate(t0, rest);
        assert(prev + emitted(prev, texts) =~= (prev + d) + emitted(t0, rest));
    }
}

/// Items folded in order: the final state and all events emitted.
pub open spec fn fold_items(s: FolderV, items: Seq<CodexThreadItem>) -> (FolderV, Seq<EventV>)
    decreases items.len(),
{
    if items.len() == 0 {
        (s, Seq::empty())
    } else {
        let (s1, e1) = fold_items(s, items.drop_last());
        let (s2, e2) = apply_spec(s1, items.last());
        (s2, e1 + e2)
    }
}

/// The text carried by the chunk (`thinking == false`) or thinking events.
pub open spec fn streamed_text(es: Seq<EventV>, thinking: bool) -> Seq<char>
    decreases es.len(),
{
    if es.len() == 0 {
        Seq::empty()
    } else {
        streamed_text(es.drop_last(), thinking) + match es.last() {
            EventV::Chunk(t) => if thinking {
                Seq::empty()
            } else {
                t
            },
            EventV::Thinking(t) => if thinking {
                t
            } else {
                Seq::empty()
            },
            _ => Seq::empty(),
        }
    }
}

/// Every event is a non-empty chunk (`thinking == false`) or thinking event.
pub open spec fn only_streamed(es: Seq<EventV>, thinking: bool) -> bool {
    forall|k: int|
        0 <= k < es.len() ==> match #[trigger] es[k] {
            EventV::Chunk(t) => !thinking && t.len() > 0,
            EventV::Thinking(t) => thinking && t.len() > 0,
            _ => false,
        }
}

/// The content blocks that streamed events add, one each.
pub open spec fn streamed_blocks(es: Seq<EventV>) -> Seq<BlockV> {
    es.map_values(
        |e: EventV|
            match e {
                EventV::Thinking(t) => BlockV::Thinking(t),
                EventV::Chunk(t) => BlockV::Text(t),
                _ => BlockV::Text(Seq::empty()),
            },
    )
}

/// Successive texts of one agent message (`thinking == false`) or one
/// reasoning item (`thinking == true`) with id `id`.
pub open spec fn text_updates(items: Seq<CodexThreadItem>, id: Seq<char>, thinking: bool) -> bool {
    forall|j: int|
        0 <= j < items.len() ==> match #[trigger] items[j] {
            CodexThreadItem::AgentMessage(m) => !thinking && m.id@ == id,
            CodexThreadItem::Reasoning(r) => thinking && r.id@ == id,
            _ => false,
        }
}

pub open spec fn item_text(item: CodexThreadItem) -> Seq<char> {
    match item {
        CodexThreadItem::AgentMessage(m) => m.text@,
        CodexThreadItem::Reasoning(r) => r.text@,
        _ => Seq::empty(),
    }
}

/// Delta monotonicity over the calls themselves: folding k cumulative updates
/// of one item not seen before emits only non-empty chunks (agent text) or
/// thinking events (reasoning), whose texts concatenate to the last text; each
/// adds its block; agent text grows the message content by exactly the last
/// text, reasoning leaves it unchanged; the item's seen text is the last text;
/// tool calls do not change.
pub proof fn lemma_fold_text_updates(
    s: FolderV,
    items: Seq<CodexThreadItem>,
    id: Seq<char>,
    thinking: bool,
)
    requires
        items.len() > 0,
        text_updates(items, id, thinking),
        !thinking ==> !s.agent_seen.contains_key(id),
        thinking ==> !s.reasoning_seen.contains_key(id),
        forall|j: int|
            0 <= j < items.len() - 1 ==> is_prefix(
                item_text(#[trigger] items[j]),
                item_text(items[j + 1]),
            ),
    ensures
        ({
            let (f, es) = fold_items(s, items);
            let last = item_text(items.last());
            &&& only_streamed(es, thinking)
            &&& streamed_text(es, thinking) == last
            &&& f.blocks == s.blocks + streamed_blocks(es)
            &&& f.tool_calls == s.tool_calls
            &&& (!thinking ==> f.content == s.content + last && f.agent_seen == s.agent_seen.insert(
                id,
                last,
            ) && f.reasoning_seen == s.reasoning_seen)
            &&& (thinking ==> f.content == s.content && f.reasoning_seen
                == s.reasoning_seen.insert(id, last) && f.agent_seen == s.agent_seen)
        }),
    decreases items.len(),
{
    let init = items.drop_last();
    let x = items.last();
    let xt = item_text(x);
    let (s1, e1) = fold_items(s, init);
    assert(match x {
        CodexThreadItem::AgentMessage(m) => !thinking && m.id@ == id,
        CodexThreadItem::Reasoning(r) => thinking && r.id@ == id,
        _ => false,
    });
    let prev: Seq<char> = if init.len() == 0 {
        Seq::empty()
    } else {
        item_text(init.last())
    };
    if init.len() == 0 {
        assert(fold_items(s, init) == (s, Seq::<EventV>::empty()));
        assert(s.blocks + streamed_blocks(Seq::<EventV>::empty()) =~= s.blocks);
        assert(s.content + Seq::<char>::empty() =~= s.content);
        assert(xt.subrange(0, 0) =~= prev);
        assert(is_prefix(prev, xt));
    } else {
        assert forall|j: int| 0 <= j < init.len() - 1 implies is_prefix(
            item_text(#[trigger] init[j]),
            item_text(init[j + 1]),
        ) by {
            assert(init[j] == items[j] && init[j + 1] == items[j + 1]);
        }
        assert(text_updates(init, id, thinking)) by {
            assert forall|j: int| 0 <= j < init.len() implies match #[trigger] init[j] {
                CodexThreadItem::AgentMessage(m) => !thinking && m.id@ == id,
                CodexThreadItem::Reasoning(r) => thinking && r.id@ == id,
                _ => false,
            } by {
                assert(init[j] == items[j]);
            }
        }
        lemma_fold_text_updates(s, init, id, thinking);
        assert(init.last() == items[items.len() - 2]);
        assert(is_prefix(prev, xt));
    }
    let (s2, e2) = apply_spec(s1, x);
    let d: Seq<char> = if xt.len() > prev.len() {
        xt.subrange(prev.len() as int, xt.len() as int)
    } else {
        Seq::empty()
    };
    assert(prev + d =~= xt);
    let es = e1 + e2;
    if thinking {
        assert(seen_text(s1.reasoning_seen, id) == prev);
    } else {
        assert(seen_text(s1.agent_seen, id) == prev);
    }
    assert(streamed_text(e1, thinking) + d =~= xt) by {
        if init.len() == 0 {
            assert(streamed_text(e1, thinking) =~= Seq::<char>::empty());
        }
    }
    if xt.len() > prev.len() {
        assert(text_delta(prev, xt) == Some(d));
        assert(es.drop_last() =~= e1);
        assert(streamed_text(es, thinking) =~= xt);
    } else {
        assert(text_delta(prev, xt) is None);
        assert(es =~= e1);
        assert(d =~= Seq::<char>::empty());
        assert(streamed_text(es, thinking) =~= xt);
    }
    assert(only_streamed(es, thinking)) by {
        assert forall|k: int| 0 <= k < es.len() implies match #[trigger] es[k] {
            EventV::Chunk(t) => !thinking && t.len() > 0,
            EventV::Thinking(t) => thinking && t.len() > 0,
            _ => false,
        } by {
            if k < e1.len() {
                assert(es[k] == e1[k]);
            } else {
                assert(es[k] == e2[k - e1.len()]);
            }
        }
    }
    assert(streamed_blocks(es) =~= streamed_blocks(e1) + streamed_blocks(e2));
    assert(s2.blocks =~= s.blocks + streamed_blocks(es));
    if !thinking {
        assert(s2.content =~= s.content + xt);
    }
}

fn digit_str(d: usize) -> (r: &'static str)
    requires
        d < 10,
    ensures
        r@ == seq![digit_char(d as nat)],
{
    proof {
        reveal_strlit("0");
        reveal_strlit("1");
        reveal_strlit("2");
        reveal_strlit("3");
        reveal_strlit("4");
        reveal_strlit("5");
        reveal_strlit("6");
        reveal_strlit("7");
        reveal_strlit("8");
        reveal_strlit("9");
    }
    if d == 0 {
        "0"
    } else if d == 1 {
        "1"
    } else if d == 2 {
        "2"
    } else if d == 3 {
        "3"
    } else if d == 4 {
        "4"
    } else if d == 5 {
        "5"
    } else if d == 6 {
        "6"
    } else if d == 7 {
        "7"
    } else if d == 8 {
        "8"
    } else {
        "9"
    }
}

/// The decimal digits of `n`.
pub fn decimal_string(n: usize) -> (r: String)
    ensures
        r@ == decimal(n as nat),
    decreases n,
{
    if n < 10 {
        owned(digit_str(n))
    } else {
        decimal_string(n / 10).concat(digit_str(n % 10))
    }
}

fn sub_id_string(base: &str, n: usize) -> (r: String)
    ensures
        r@ == sub_id(base@, n as nat),
{
    let d = decimal_string(n);
    owned(base).concat(":").concat(d.as_str())
}

/// What a cumulative text update contributes (see `text_delta`).
pub fn text_delta_of(prev: &str, new: &str) -> (r: Option<String>)
    ensures
        opt_view(r) == text_delta(prev@, new@),
{
    let pl = prev.unicode_len();
    let nl = new.unicode_len();
    if starts_with(new, prev) {
        if nl > pl {
            Some(owned(new.substring_char(pl, nl)))
        } else {
            None
        }
    } else if nl > 0 && !str_eq(new, prev) {
        Some(owned(new))
    } else {
        None
    }
}

fn concat_events(a: Vec<FolderEvent>, b: Vec<FolderEvent>) -> (r: Vec<FolderEvent>)
    ensures
        events_view(r@) == events_view(a@) + events_view(b@),
{
    let mut a = a;
    let mut b = b;
    let ghost av = a@;
    let ghost bv = b@;
    a.append(&mut b);
    assert(events_view(a@) =~= events_view(av) + events_view(bv));
    a
}

/// The text stored under `id`, or empty.
fn seen_lookup(seen: &Vec<(String, String)>, id: &str) -> (r: String)
    ensures
        r@ == seen_text(assoc(seen@, str_val()), id@),
{
    match find_key(seen, id) {
        Some(i) => {
            proof {
                lemma_assoc_found(seen@, str_val(), i as int, id@);
            }
            seen[i].1.clone()
        },
        None => {
            proof {
                lemma_assoc_absent(seen@, str_val(), id@);
            }
            String::new()
        },
    }
}

impl ItemFolder {
    /// The state invariant: tool-call ids are unique.
    pub open spec fn wf(&self) -> bool {
        unique_ids(calls_view(self.tool_calls@))
    }

    pub fn new() -> (r: ItemFolder)
        ensures
            r@ == empty_folder(),
            r.wf(),
    {
        let r = ItemFolder {
            content: String::new(),
            tool_calls: Vec::new(),
            content_blocks: Vec::new(),
            agent_message_seen: Vec::new(),
            reasoning_seen: Vec::new(),
            todo_list_seen: Vec::new(),
            todo_list_seq: Vec::new(),
        };
        assert(calls_view(r.tool_calls@) =~= Seq::empty());
        assert(blocks_view(r.content_blocks@) =~= Seq::empty());
        assert(assoc(r.agent_message_seen@, str_val()) =~= Map::empty());
        assert(assoc(r.reasoning_seen@, str_val()) =~= Map::empty());
        assert(assoc(r.todo_list_seen@, todos_val()) =~= Map::empty());
        assert(assoc(r.todo_list_seq@, count_val()) =~= Map::empty());
        r
    }

    fn find_tool(&self, id: &str) -> (r: Option<usize>)
        ensures
            match r {
                Some(i) => i < self.tool_calls@.len() && self.tool_calls@[i as int].id@ == id@,
                None => !has_tool(calls_view(self.tool_calls@), id@),
            },
    {
        let mut i: usize = 0;
        while i < self.tool_calls.len()
            invariant
                i <= self.tool_calls@.len(),
                forall|j: int| 0 <= j < i ==> #[trigger] self.tool_calls@[j].id@ != id@,
            decreases self.tool_calls@.len() - i,
        {
            if crate::text::str_eq(self.tool_calls[i].id.as_str(), id) {
                return Some(i);
            }
            i = i + 1;
        }
        assert forall|j: int| 0 <= j < calls_view(self.tool_calls@).len() implies #[trigger] calls_view(
            self.tool_calls@,
        )[j].id != id@ by {
            assert(calls_view(self.tool_calls@)[j] == self.tool_calls@[j]@);
        }
        None
    }

    /// Creates tool call `id` with `name` and `input` unless one with that id
    /// exists; a new call also gets a tool-use block and two events.
    pub fn ensure_tool_call(&mut self, id: &str, name: &str, input: ToolInput) -> (r: Vec<
        FolderEvent,
    >)
        requires
            old(self).wf(),
        ensures
            final(self).wf(),
            (final(self)@, events_view(r@)) == ensure_spec(old(self)@, id@, name@, input@),
    {
        let mut events: Vec<FolderEvent> = Vec::new();
        if self.find_tool(id).is_some() {
            assert(has_tool(calls_view(self.tool_calls@), id@)) by {
                let i = choose|i: int|
                    0 <= i < self.tool_calls@.len() && self.tool_calls@[i].id@ == id@;
                assert(calls_view(self.tool_calls@)[i].id == id@);
            }
            assert(events_view(events@) =~= Seq::empty());
            return events;
        }
        let ghost old_calls = calls_view(self.tool_calls@);
        let ghost old_blocks = blocks_view(self.content_blocks@);
        let input_copy = input.duplicate();
        self.tool_calls.push(
            ToolCall {
                id: owned(id),
                name: owned(name),
                input,
                output: None,
                parent_tool_use_id: None,
            },
        );
        self.content_blocks.push(ContentBlock::ToolUse { tool_call_id: owned(id) });
        events.push(FolderEvent::ToolUse { id: owned(id), name: owned(name), input: input_copy });
        events.push(FolderEvent::ToolBlock { tool_call_id: owned(id) });
        let ghost tv = ToolCallV {
            id: id@,
            name: name@,
            input: input@,
            output: None,
            parent_tool_use_id: None,
        };
        assert(calls_view(self.tool_calls@) =~= old_calls.push(tv));
        assert(blocks_view(self.content_blocks@) =~= old_blocks.push(BlockV::ToolUse(id@)));
        assert(events_view(events@) =~= seq![
            EventV::ToolUse(id@, name@, input@),
            EventV::ToolBlock(id@),
        ]);
        events
    }

    /// Sets the output of tool call `tool_use_id` (last write wins) and reports
    /// the result.
    pub fn update_tool_output(&mut self, tool_use_id: &str, output: String) -> (r: Vec<
        FolderEvent,
    >)
        requires
            old(self).wf(),
        ensures
            final(self).wf(),
            (final(self)@, events_view(r@)) == update_spec(old(self)@, tool_use_id@, output@),
    {
        let ghost old_calls = calls_view(self.tool_calls@);
        let ghost out = output@;
        let ghost new_calls = old_calls.map_values(
            |t: ToolCallV|
                if t.id == tool_use_id@ {
                    ToolCallV { output: Some(out), ..t }
                } else {
                    t
                },
        );
        let mut events: Vec<FolderEvent> = Vec::new();
        events.push(
            FolderEvent::ToolResult { tool_use_id: owned(tool_use_id), output: output.clone() },
        );
        match self.find_tool(tool_use_id) {
            Some(i) => {
                let mut tc = self.tool_calls.remove(i);
                tc.output = Some(output);
                self.tool_calls.insert(i, tc);
                assert forall|j: int| 0 <= j < old_calls.len() && j != i implies old_calls[j].id
                    != tool_use_id@ by {
                    assert(old_calls[i as int].id == tool_use_id@);
                }
                assert(calls_view(self.tool_calls@) =~= new_calls);
            },
            None => {
                assert forall|j: int| 0 <= j < old_calls.len() implies old_calls[j].id
                    != tool_use_id@ by {
                    if old_calls[j].id == tool_use_id@ {
                        assert(has_tool(old_calls, tool_use_id@));
                    }
                }
                assert(new_calls =~= old_calls);
            },
        }
        assert(events_view(events@) =~= seq![EventV::ToolResult(tool_use_id@, output@)]);
        events
    }

    fn ensure_update(&mut self, id: &str, name: &str, input: ToolInput, out: String) -> (r: Vec<
        FolderEvent,
    >)
        requires
            old(self).wf(),
        ensures
            final(self).wf(),
            (final(self)@, events_view(r@)) == ensure_update_spec(
                old(self)@,
                id@,
                name@,
                input@,
                out@,
            ),
    {
        let e1 = self.ensure_tool_call(id, name, input);
        let e2 = self.update_tool_output(id, out);
        concat_events(e1, e2)
    }

    fn fold_agent_message(&mut self, m: &CodexAgentMessageItem) -> (r: Vec<FolderEvent>)
        requires
            old(self).wf(),
        ensures
            final(self).wf(),
            (final(self)@, events_view(r@)) == apply_spec(
                old(self)@,
                CodexThreadItem::AgentMessage(*m),
            ),
    {
        let prev = seen_lookup(&self.agent_message_seen, m.id.as_str());
        let mut events: Vec<FolderEvent> = Vec::new();
        let ghost blocks0 = blocks_view(self.content_blocks@);
        match text_delta_of(prev.as_str(), m.text.as_str()) {
            Some(t) => {
                self.content.append(t.as_str());
                self.content_blocks.push(ContentBlock::Text { text: t.clone() });
                assert(blocks_view(self.content_blocks@) =~= blocks0.push(BlockV::Text(t@)));
                events.push(FolderEvent::Chunk { content: t });
            },
            None => {},
        }
        assign::<String, Seq<char>>(&mut self.agent_message_seen, m.id.as_str(), m.text.clone(), Ghost(str_val()));
        assert(events_view(events@) =~= apply_spec(
            old(self)@,
            CodexThreadItem::AgentMessage(*m),
        ).1);
        events
    }

    fn fold_reasoning(&mut self, m: &CodexReasoningItem) -> (r: Vec<FolderEvent>)
        requires
            old(self).wf(),
        ensures
            final(self).wf(),
            (final(self)@, events_view(r@)) == apply_spec(
                old(self)@,
                CodexThreadItem::Reasoning(*m),
            ),
    {
        let prev = seen_lookup(&self.reasoning_seen, m.id.as_str());
        let mut events: Vec<FolderEvent> = Vec::new();
        let ghost blocks0 = blocks_view(self.content_blocks@);
        match text_delta_of(prev.as_str(), m.text.as_str()) {
            Some(t) => {
                self.content_blocks.push(ContentBlock::Thinking { thinking: t.clone() });
                assert(blocks_view(self.content_blocks@) =~= blocks0.push(BlockV::Thinking(t@)));
                events.push(FolderEvent::Thinking { content: t });
            },
            None => {},
        }
        assign::<String, Seq<char>>(&mut self.reasoning_seen, m.id.as_str(), m.text.clone(), Ghost(str_val()));
        assert(events_view(events@) =~= apply_spec(
            old(self)@,
            CodexThreadItem::Reasoning(*m),
        ).1);
        events
    }

    fn fold_file_change(&mut self, fc: &CodexFileChangeItem) -> (r: Vec<FolderEvent>)
        requires
            old(self).wf(),
        ensures
            final(self).wf(),
            (final(self)@, events_view(r@)) == apply_spec(
                old(self)@,
                CodexThreadItem::FileChange(*fc),
            ),
    {
        let n = fc.changes.len();
        if n <= 1 {
            let input = if n == 1 {
                ToolInput::FileEdit {
                    file_path: fc.changes[0].path.clone(),
                    kind: fc.changes[0].kind.clone(),
                }
            } else {
                ToolInput::NoFileChanges
            };
            let out = owned("status: ").concat(fc.status.as_str());
            return self.ensure_update(fc.id.as_str(), "Edit", input, out);
        }
        let mut events: Vec<FolderEvent> = Vec::new();
        let mut idx: usize = 0;
        assert(events_view(events@) =~= Seq::empty());
        while idx < n
            invariant
                n == fc.changes@.len(),
                idx <= n,
                self.wf(),
                (self@, events_view(events@)) == changes_spec(old(self)@, *fc, idx as nat),
            decreases n - idx,
        {
            let tid = sub_id_string(fc.id.as_str(), idx);
            let input = ToolInput::FileEdit {
                file_path: fc.changes[idx].path.clone(),
                kind: fc.changes[idx].kind.clone(),
            };
            let out = owned("status: ").concat(fc.status.as_str());
            let e = self.ensure_update(tid.as_str(), "Edit", input, out);
            events = concat_events(events, e);
            idx = idx + 1;
        }
        events
    }

    fn fold_mcp_tool_call(&mut self, tc: &CodexMcpToolCallItem) -> (r: Vec<FolderEvent>)
        requires
            old(self).wf(),
        ensures
            final(self).wf(),
            (final(self)@, events_view(r@)) == apply_spec(
                old(self)@,
                CodexThreadItem::McpToolCall(*tc),
            ),
    {
        let name = owned("MCP:").concat(tc.server.as_str()).concat(":").concat(tc.tool.as_str());
        let e1 = self.ensure_tool_call(
            tc.id.as_str(),
            name.as_str(),
            ToolInput::Json { json: tc.arguments.clone() },
        );
        match &tc.result {
            Some(res) => {
                let e2 = self.update_tool_output(tc.id.as_str(), res.structured_content.clone());
                concat_events(e1, e2)
            },
            None => match &tc.error {
                Some(err) => {
                    let out = owned("error: ").concat(err.message.as_str());
                    let e2 = self.update_tool_output(tc.id.as_str(), out);
                    concat_events(e1, e2)
                },
                None => e1,
            },
        }
    }

    fn fold_todo_list(&mut self, t: &CodexTodoListItem) -> (r: Vec<FolderEvent>)
        requires
            old(self).wf(),
        ensures
            final(self).wf(),
            (final(self)@, events_view(r@)) == apply_spec(
                old(self)@,
                CodexThreadItem::TodoList(*t),
            ),
    {
        let same = match find_key(&self.todo_list_seen, t.id.as_str()) {
            Some(i) => {
                proof {
                    lemma_assoc_found(self.todo_list_seen@, todos_val(), i as int, t.id@);
                }
                same_todos(&self.todo_list_seen[i].1, &t.items)
            },
            None => {
                proof {
                    lemma_assoc_absent(self.todo_list_seen@, todos_val(), t.id@);
                }
                false
            },
        };
        if same {
            let events: Vec<FolderEvent> = Vec::new();
            assert(events_view(events@) =~= Seq::empty());
            return events;
        }
        let cur: usize = match find_key(&self.todo_list_seq, t.id.as_str()) {
            Some(i) => {
                proof {
                    lemma_assoc_found(self.todo_list_seq@, count_val(), i as int, t.id@);
                }
                self.todo_list_seq[i].1
            },
            None => {
                proof {
                    lemma_assoc_absent(self.todo_list_seq@, count_val(), t.id@);
                }
                0
            },
        };
        let n: usize = if cur < usize::MAX {
            cur + 1
        } else {
            cur
        };
        assign::<Vec<CodexTodoItem>, Seq<(Seq<char>, bool)>>(
            &mut self.todo_list_seen,
            t.id.as_str(), copy_todos(&t.items), Ghost(todos_val()));
        assign::<usize, nat>(&mut self.todo_list_seq, t.id.as_str(), n, Ghost(count_val()));
        let tid = sub_id_string(t.id.as_str(), n);
        self.ensure_tool_call(
            tid.as_str(),
            "TodoWrite",
            ToolInput::Todos { todos: copy_todos(&t.items) },
        )
    }

    /// Folds one thread item into the message and returns the events to emit.
    pub fn apply_item(&mut self, item: &CodexThreadItem) -> (r: Vec<FolderEvent>)
        requires
            old(self).wf(),
        ensures
            final(self).wf(),
            (final(self)@, events_view(r@)) == apply_spec(old(self)@, *item),
    {
        match item {
            CodexThreadItem::AgentMessage(m) => self.fold_agent_message(m),
            CodexThreadItem::Reasoning(m) => self.fold_reasoning(m),
            CodexThreadItem::CommandExecution(c) => self.ensure_update(
                c.id.as_str(),
                "Bash",
                ToolInput::Command { command: c.command.clone() },
                c.aggregated_output.clone(),
            ),
            CodexThreadItem::FileChange(fc) => self.fold_file_change(fc),
            CodexThreadItem::McpToolCall(tc) => self.fold_mcp_tool_call(tc),
            CodexThreadItem::WebSearch(ws) => self.ensure_tool_call(
                ws.id.as_str(),
                "WebSearch",
                ToolInput::Query { query: ws.query.clone() },
            ),
            CodexThreadItem::TodoList(t) => self.fold_todo_list(t),
            CodexThreadItem::Error(e) => {
                let mut events: Vec<FolderEvent> = Vec::new();
                events.push(FolderEvent::Error { message: e.message.clone() });
                assert(events_view(events@) =~= seq![EventV::Error(e.message@)]);
                events
            },
        }
    }
}

} // verus!
