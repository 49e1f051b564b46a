//! Replay of a stored stream-json run log (the other agent CLI): assistant text, thinking and tool-use
//! blocks, tool results, and the final result text, rebuilt into a message.
use vstd::prelude::*;

use crate::text::{owned, str_eq};
use crate::types::{
    blocks_view, calls_view, opt_view, BlockV, ContentBlock, InputV, ToolCall, ToolCallV, ToolInput,
};

verus! {

/// A content block of a stream-json message. A tool-use input is JSON text
/// (`null` when absent).
#[derive(Debug, Clone)]
pub enum ClaudeBlock {
    Text { text: String },
    ToolUse { id: String, name: String, input: String },
    Thinking { thinking: String },
    ToolResult { tool_use_id: String, content: String },
    Other,
}

#[derive(Debug, Clone)]
pub enum ClaudeMessageKind {
    Assistant { blocks: Vec<ClaudeBlock> },
    User { blocks: Vec<ClaudeBlock> },
    Result { result: Option<String> },
    Other,
}

/// One decoded line of a stream-json run log.
#[derive(Debug, Clone)]
pub struct ClaudeRecord {
    /// The line is the run's metadata header.
    pub is_meta: bool,
    pub parent_tool_use_id: Option<String>,
    pub kind: ClaudeMessageKind,
}

pub struct ClaudeV {
    pub content: Seq<char>,
    pub calls: Seq<ToolCallV>,
    pub blocks: Seq<BlockV>,
    pub parent: Option<Seq<char>>,
}

/// The placeholder text that the CLI emits before any real text.
pub open spec fn no_content() -> Seq<char> {
    "(no content)"@
}

pub open spec fn assistant_block(s: ClaudeV, b: ClaudeBlock) -> ClaudeV {
    match b {
        ClaudeBlock::Text { text } => if text@ == no_content() {
            s
        } else {
            ClaudeV { content: s.content + text@, blocks: s.blocks.push(BlockV::Text(text@)), ..s }
        },
        ClaudeBlock::ToolUse { id, name, input } => ClaudeV {
            calls: s.calls.push(
                ToolCallV {
                    id: id@,
                    name: name@,
                    input: InputV::Json(input@),
                    output: None,
                    parent_tool_use_id: s.parent,
                },
            ),
            blocks: s.blocks.push(BlockV::ToolUse(id@)),
            ..s
        },
        ClaudeBlock::Thinking { thinking } => ClaudeV {
            blocks: s.blocks.push(BlockV::Thinking(thinking@)),
            ..s
        },
        _ => s,
    }
}

pub open spec fn assistant_blocks(s: ClaudeV, bs: Seq<ClaudeBlock>, k: nat) -> ClaudeV
    decreases k,
{
    if k == 0 || k > bs.len() {
        s
    } else {
        assistant_block(assistant_blocks(s, bs, (k - 1) as nat), bs[k - 1])
    }
}

/// The first position at or after `from` of a tool call with id `id`, or -1.
pub open spec fn first_call(calls: Seq<ToolCallV>, id: Seq<char>, from: int) -> int
    decreases calls.len() - from,
{
    if from < 0 || from >= calls.len() {
        -1
    } else if calls[from].id == id {
        from
    } else {
        first_call(calls, id, from + 1)
    }
}

/// Sets the output of the first tool call with id `id`, if any.
pub open spec fn set_first_output(calls: Seq<ToolCallV>, id: Seq<char>, out: Seq<char>) -> Seq<
    ToolCallV,
> {
    let i = first_call(calls, id, 0);
    if i < 0 {
        calls
    } else {
        calls.update(i, ToolCallV { output: Some(out), ..calls[i] })
    }
}

pub open spec fn user_block(s: ClaudeV, b: ClaudeBlock) -> ClaudeV {
    match b {
        ClaudeBlock::ToolResult { tool_use_id, content } => ClaudeV {
            calls: set_first_output(s.calls, tool_use_id@, content@),
            ..s
        },
        _ => s,
    }
}

pub open spec fn user_blocks(s: ClaudeV, bs: Seq<ClaudeBlock>, k: nat) -> ClaudeV
    decreases k,
{
    if k == 0 || k > bs.len() {
        s
    } else {
        user_block(user_blocks(s, bs, (k - 1) as nat), bs[k - 1])
    }
}

pub open spec fn record_step(s: ClaudeV, r: ClaudeRecord) -> ClaudeV {
    if r.is_meta {
        s
    } else {
        let s1 = match r.parent_tool_use_id {
            Some(p) => ClaudeV { parent: Some(p@), ..s },
            None => s,
        };
        match r.kind {
            ClaudeMessageKind::Assistant { blocks } => assistant_blocks(s1, blocks@, blocks@.len()),
            ClaudeMessageKind::User { blocks } => user_blocks(s1, blocks@, blocks@.len()),
            ClaudeMessageKind::Result { result } => match result {
                Some(t) => if s1.content.len() == 0 {
                    ClaudeV { content: t@, ..s1 }
                } else {
                    s1
                },
                None => s1,
            },
            ClaudeMessageKind::Other => s1,
        }
    }
}

pub open spec fn claude_replay(s: ClaudeV, rs: Seq<ClaudeRecord>, k: nat) -> ClaudeV
    decreases k,
{
    if k == 0 || k > rs.len() {
        s
    } else {
        record_step(claude_replay(s, rs, (k - 1) as nat), rs[k - 1])
    }
}

pub open spec fn empty_claude() -> ClaudeV {
    ClaudeV { content: Seq::empty(), calls: Seq::empty(), blocks: Seq::empty(), parent: None }
}

/// The message under construction.
pub struct ClaudeReplay {
    pub content: String,
    pub tool_calls: Vec<ToolCall>,
    pub content_blocks: Vec<ContentBlock>,
    pub parent: Option<String>,
}

impl View for ClaudeReplay {
    type V = ClaudeV;

    open spec fn view(&self) -> ClaudeV {
        ClaudeV {
            content: self.content@,
            calls: calls_view(self.tool_calls@),
            blocks: blocks_view(self.content_blocks@),
            parent: opt_view(self.parent),
        }
    }
}

impl ClaudeReplay {
    fn assistant_block(&mut self, b: &ClaudeBlock)
        ensures
            final(self)@ == assistant_block(old(self)@, *b),
    {
        let ghost calls0 = calls_view(self.tool_calls@);
        let ghost blocks0 = blocks_view(self.content_blocks@);
        match b {
            ClaudeBlock::Text { text } => {
                if !str_eq(text.as_str(), "(no content)") {
                    self.content.append(text.as_str());
                    self.content_blocks.push(ContentBlock::Text { text: text.clone() });
                    assert(blocks_view(self.content_blocks@) =~= blocks0.push(BlockV::Text(text@)));
                }
            },
            ClaudeBlock::ToolUse { id, name, input } => {
                let parent = crate::lifecycle::clone_opt(&self.parent);
                self.tool_calls.push(
                    ToolCall {
                        id: id.clone(),
                        name: name.clone(),
                        input: ToolInput::Json { json: input.clone() },
                        output: None,
                        parent_tool_use_id: parent,
                    },
                );
                self.content_blocks.push(ContentBlock::ToolUse { tool_call_id: id.clone() });
                assert(calls_view(self.tool_calls@) =~= calls0.push(
                    ToolCallV {
                        id: id@,
                        name: name@,
                        input: InputV::Json(input@),
                        output: None,
                        parent_tool_use_id: old(self)@.parent,
                    },
                ));
                assert(blocks_view(self.content_blocks@) =~= blocks0.push(BlockV::ToolUse(id@)));
            },
            ClaudeBlock::Thinking { thinking } => {
                self.content_blocks.push(ContentBlock::Thinking { thinking: thinking.clone() });
                assert(blocks_view(self.content_blocks@) =~= blocks0.push(
                    BlockV::Thinking(thinking@),
                ));
            },
            _ => {},
        }
    }

    fn set_output(&mut self, id: &str, out: &str)
        ensures
            final(self)@ == (ClaudeV {
                calls: set_first_output(old(self)@.calls, id@, out@),
                ..old(self)@
            }),
    {
        let ghost calls0 = calls_view(self.tool_calls@);
        let mut i: usize = 0;
        while i < self.tool_calls.len()
            invariant
                i <= self.tool_calls@.len(),
                calls_view(self.tool_calls@) == calls0,
                self@ == old(self)@,
                first_call(calls0, id@, 0) == first_call(calls0, id@, i as int),
            decreases self.tool_calls@.len() - i,
        {
            if str_eq(self.tool_calls[i].id.as_str(), id) {
                assert(calls0[i as int].id == id@);
                let mut tc = self.tool_calls.remove(i);
                tc.output = Some(owned(out));
                self.tool_calls.insert(i, tc);
                assert(calls_view(self.tool_calls@) =~= calls0.update(
                    i as int,
                    ToolCallV { output: Some(out@), ..calls0[i as int] },
                ));
                return;
            }
            assert(calls0[i as int].id != id@);
            i = i + 1;
        }
    }

    fn record(&mut self, r: &ClaudeRecord)
        ensures
            final(self)@ == record_step(old(self)@, *r),
    {
        if r.is_meta {
            return;
        }
        if let Some(p) = &r.parent_tool_use_id {
            self.parent = Some(p.clone());
        }
        match &r.kind {
            ClaudeMessageKind::Assistant { blocks } => {
                let ghost s1 = self@;
                let mut k: usize = 0;
                while k < blocks.len()
                    invariant
                        k <= blocks@.len(),
                        self@ == assistant_blocks(s1, blocks@, k as nat),
                    decreases blocks@.len() - k,
                {
                    self.assistant_block(&blocks[k]);
                    k = k + 1;
                }
            },
            ClaudeMessageKind::User { blocks } => {
                let ghost s1 = self@;
                let mut k: usize = 0;
                while k < blocks.len()
                    invariant
                        k <= blocks@.len(),
                        self@ == user_blocks(s1, blocks@, k as nat),
                    decreases blocks@.len() - k,
                {
                    if let ClaudeBlock::ToolResult { tool_use_id, content } = &blocks[k] {
                        self.set_output(tool_use_id.as_str(), content.as_str());
                    }
                    k = k + 1;
                }
            },
            ClaudeMessageKind::Result { result } => {
                if let Some(t) = result {
                    if self.content.as_str().unicode_len() == 0 {
                        self.content = t.clone();
                    }
                }
            },
            ClaudeMessageKind::Other => {},
        }
    }
}

/// Replays the records of a stream-json run log.
pub fn replay_claude(records: &Vec<ClaudeRecord>) -> (r: ClaudeReplay)
    ensures
        r@ == claude_replay(empty_claude(), records@, records@.len()),
{
    let mut st = ClaudeReplay {
        content: String::new(),
        tool_calls: Vec::new(),
        content_blocks: Vec::new(),
        parent: None,
    };
    assert(st@ =~= empty_claude()) by {
        assert(calls_view(st.tool_calls@) =~= Seq::empty());
        assert(blocks_view(st.content_blocks@) =~= Seq::empty());
    }
    let mut k: usize = 0;
    while k < records.len()
        invariant
            k <= records@.len(),
            st@ == claude_replay(empty_claude(), records@, k as nat),
        decreases records@.len() - k,
    {
        st.record(&records[k]);
        k = k + 1;
    }
    st
}

} // verus!
