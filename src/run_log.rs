//! Stored run logs: the decoded lines of a run's NDJSON log, and the replay
//! that rebuilds the assistant message from them with the item folder.
use vstd::prelude::*;

use crate::codex_exec::{CodexExecEvent, CodexThreadItem};
use crate::item_folder::{apply_spec, empty_folder, FolderV, ItemFolder};
use crate::text::{contains, occurs_in, trim_str, trimmed};
use crate::claude_log::{claude_replay, empty_claude, replay_claude, ClaudeRecord};
use crate::types::{blocks_view, calls_view, ChatAgent, ChatMessage, MessageRole, RunEntry};

verus! {

/// One line of a run log: its text, whether that text is JSON, and the event it
/// decodes to, if any (JSON of an unknown kind decodes to none).
#[derive(Debug, Clone)]
pub struct LogLine {
    pub text: String,
    pub is_json: bool,
    pub event: Option<CodexExecEvent>,
}

/// The key that marks the metadata header of a run log.
pub open spec fn meta_marker() -> Seq<char> {
    "\"_run_meta\""@
}

/// Blank lines and the metadata header carry no event.
pub open spec fn skipped_line(text: Seq<char>) -> bool {
    trimmed(text).len() == 0 || occurs_in(meta_marker(), text)
}

/// Whether a line is blank or the metadata header.
pub fn is_skipped_line(text: &str) -> (r: bool)
    ensures
        r == skipped_line(text@),
{
    trim_str(text).unicode_len() == 0 || contains(text, "\"_run_meta\"")
}

/// The thread item that an event carries, if it is an item event.
pub open spec fn event_item(e: CodexExecEvent) -> Option<CodexThreadItem> {
    match e {
        CodexExecEvent::ItemStarted { item } => Some(item),
        CodexExecEvent::ItemUpdated { item } => Some(item),
        CodexExecEvent::ItemCompleted { item } => Some(item),
        _ => None,
    }
}

/// Replay of one stored line: item events go through the folder, everything
/// else is skipped.
pub open spec fn replay_line(f: FolderV, line: LogLine) -> FolderV {
    if skipped_line(line.text@) {
        f
    } else {
        match line.event {
            Some(e) => match event_item(e) {
                Some(item) => apply_spec(f, item).0,
                None => f,
            },
            None => f,
        }
    }
}

pub open spec fn replay_spec(f: FolderV, lines: Seq<LogLine>) -> FolderV
    decreases lines.len(),
{
    if lines.len() == 0 {
        f
    } else {
        replay_spec(replay_line(f, lines[0]), lines.drop_first())
    }
}

/// The prompt text of a detached run: an optional language instruction, an
/// optional parallelization hint, a note on the sandbox (except in yolo mode),
/// then the user message, ending with a newline.
pub open spec fn codex_input_text(
    message: Seq<char>,
    mode: Option<Seq<char>>,
    lang: Option<Seq<char>>,
    parallel: bool,
) -> Seq<char> {
    let lang_part = match lang {
        Some(l) => if trimmed(l).len() > 0 {
            "Respond to the user in "@ + trimmed(l) + ".\n\n"@
        } else {
            Seq::empty()
        },
        None => Seq::empty(),
    };
    let parallel_part = if parallel {
        parallel_hint()
    } else {
        Seq::empty()
    };
    let note = if crate::mode_policy::mode_of(mode) == crate::mode_policy::ExecutionMode::Yolo {
        Seq::empty()
    } else {
        sandbox_note()
    };
    let body = lang_part + parallel_part + note + message;
    if body.len() > 0 && body.last() == '\n' {
        body
    } else {
        body.push('\n')
    }
}

pub open spec fn parallel_hint() -> Seq<char> {
    "In plan mode, structure plans so tasks can be done simultaneously. In build/execute mode, try to parallelize work for faster implementation.\n\n"@
}

pub open spec fn sandbox_note() -> Seq<char> {
    "Note: In this mode, outbound network access may be blocked by the sandbox. Avoid using `gh`/GitHub API calls here. If GitHub data is required, ask the user to: (1) switch to YOLO mode, or (2) run the command externally and paste the output.\n\n"@
}

/// The text of a detached run's input file.
pub fn codex_input_prompt(
    message: &str,
    execution_mode: Option<&str>,
    ai_language: Option<&str>,
    parallel_execution_prompt_enabled: bool,
) -> (r: String)
    ensures
        r@ == codex_input_text(
            message@,
            crate::mode_policy::opt_str_view(execution_mode),
            crate::mode_policy::opt_str_view(ai_language),
            parallel_execution_prompt_enabled,
        ),
{
    let mut prompt = String::new();
    if let Some(lang) = ai_language {
        let lang = trim_str(lang);
        if lang.unicode_len() > 0 {
            prompt.append("Respond to the user in ");
            prompt.append(lang);
            prompt.append(".\n\n");
        }
    }
    if parallel_execution_prompt_enabled {
        prompt.append(
            "In plan mode, structure plans so tasks can be done simultaneously. In build/execute mode, try to parallelize work for faster implementation.\n\n",
        );
    }
    if crate::mode_policy::ExecutionMode::from_optional_str(execution_mode)
        != crate::mode_policy::ExecutionMode::Yolo {
        prompt.append(
            "Note: In this mode, outbound network access may be blocked by the sandbox. Avoid using `gh`/GitHub API calls here. If GitHub data is required, ask the user to: (1) switch to YOLO mode, or (2) run the command externally and paste the output.\n\n",
        );
    }
    prompt.append(message);
    let n = prompt.as_str().unicode_len();
    if n > 0 && prompt.as_str().get_char(n - 1) == '\n' {
        prompt
    } else {
        proof {
            reveal_strlit("\n");
            assert("\n"@ =~= seq!['\n']);
        }
        prompt.append("\n");
        prompt
    }
}

/// A lowercase hexadecimal digit.
pub open spec fn lower_hex(c: char) -> bool {
    ('0' <= c && c <= '9') || ('a' <= c && c <= 'f')
}

/// Hyphenated lowercase UUID text: 36 characters, hyphens at positions 8, 13,
/// 18 and 23, lowercase hexadecimal digits elsewhere.
pub open spec fn message_id_text(s: Seq<char>) -> bool {
    &&& s.len() == 36
    &&& forall|i: int|
        0 <= i < 36 ==> if i == 8 || i == 13 || i == 18 || i == 23 {
            s[i] == '-'
        } else {
            lower_hex(#[trigger] s[i])
        }
}

/// Relies on `uuid::Uuid::new_v4` and its `Display` (lowercase hyphenated
/// form, uuid's fmt.rs): a fresh random id as 36 characters, 8-4-4-4-12
/// lowercase hexadecimal digits separated by hyphens.
#[verifier::external_body]
pub(crate) fn new_message_id() -> (r: String)
    ensures
        message_id_text(r@),
{
    uuid::Uuid::new_v4().to_string()
}

/// Folds the stored lines of a run into a folder.
pub fn replay_lines(lines: &Vec<LogLine>) -> (r: ItemFolder)
    ensures
        r.wf(),
        r@ == replay_spec(empty_folder(), lines@),
{
    let mut folder = ItemFolder::new();
    let mut i: usize = 0;
    assert(lines@.subrange(0, lines@.len() as int) =~= lines@);
    while i < lines.len()
        invariant
            i <= lines@.len(),
            folder.wf(),
            replay_spec(empty_folder(), lines@) == replay_spec(
                folder@,
                lines@.subrange(i as int, lines@.len() as int),
            ),
        decreases lines@.len() - i,
    {
        let line = &lines[i];
        assert(lines@.subrange(i as int, lines@.len() as int).drop_first() =~= lines@.subrange(
            i + 1,
            lines@.len() as int,
        ));
        if !is_skipped_line(line.text.as_str()) {
            match &line.event {
                Some(CodexExecEvent::ItemStarted { item }) => {
                    folder.apply_item(item);
                },
                Some(CodexExecEvent::ItemUpdated { item }) => {
                    folder.apply_item(item);
                },
                Some(CodexExecEvent::ItemCompleted { item }) => {
                    folder.apply_item(item);
                },
                _ => {},
            }
        }
        i = i + 1;
    }
    folder
}

/// The fields of a rebuilt assistant message that come from its run record
/// (all but the session, content, tool calls and blocks).
pub open spec fn assistant_shell(r: ChatMessage, run: RunEntry) -> bool {
    &&& r.role == MessageRole::Assistant
    &&& r.timestamp == run.started_at
    &&& r.cancelled == run.cancelled
    &&& r.recovered == run.recovered
    &&& r.usage == run.usage
    &&& !r.plan_approved
    &&& r.model is None && r.execution_mode is None && r.thinking_level is None
    &&& match run.assistant_message_id {
        Some(id) => r.id@ == id@,
        None => message_id_text(r.id@),
    }
}

fn message_id(run: &RunEntry) -> (r: String)
    ensures
        match run.assistant_message_id {
            Some(id) => r@ == id@,
            None => message_id_text(r@),
        },
{
    match &run.assistant_message_id {
        Some(id) => id.clone(),
        None => new_message_id(),
    }
}

/// The assistant message of a Codex run, rebuilt from its stored lines.
pub fn parse_codex_run_to_message(lines: &Vec<LogLine>, run: &RunEntry) -> (r: ChatMessage)
    ensures
        ({
            let f = replay_spec(empty_folder(), lines@);
            &&& r.content@ == f.content
            &&& calls_view(r.tool_calls@) == f.tool_calls
            &&& blocks_view(r.content_blocks@) == f.blocks
        }),
        assistant_shell(r, *run),
        r.session_id@.len() == 0,
{
    let folder = replay_lines(lines);
    ChatMessage {
        id: message_id(run),
        session_id: String::new(),
        role: MessageRole::Assistant,
        content: folder.content,
        timestamp: run.started_at,
        tool_calls: folder.tool_calls,
        content_blocks: folder.content_blocks,
        cancelled: run.cancelled,
        plan_approved: false,
        model: None,
        execution_mode: None,
        thinking_level: None,
        recovered: run.recovered,
        usage: run.usage,
    }
}

/// The assistant message of a stream-json run, rebuilt from its decoded records.
pub fn parse_claude_run_to_message(records: &Vec<ClaudeRecord>, run: &RunEntry) -> (r:
    ChatMessage)
    ensures
        ({
            let c = claude_replay(empty_claude(), records@, records@.len());
            &&& r.content@ == c.content
            &&& calls_view(r.tool_calls@) == c.calls
            &&& blocks_view(r.content_blocks@) == c.blocks
        }),
        assistant_shell(r, *run),
        r.session_id@.len() == 0,
{
    let st = replay_claude(records);
    ChatMessage {
        id: message_id(run),
        session_id: String::new(),
        role: MessageRole::Assistant,
        content: st.content,
        timestamp: run.started_at,
        tool_calls: st.tool_calls,
        content_blocks: st.content_blocks,
        cancelled: run.cancelled,
        plan_approved: false,
        model: None,
        execution_mode: None,
        thinking_level: None,
        recovered: run.recovered,
        usage: run.usage,
    }
}

/// The assistant message of a run, by the agent that served it: Codex runs
/// replay `codex_lines`, the other agent's runs replay `claude_records`.
pub fn parse_run_to_message(
    codex_lines: &Vec<LogLine>,
    claude_records: &Vec<ClaudeRecord>,
    run: &RunEntry,
) -> (r: ChatMessage)
    ensures
        assistant_shell(r, *run),
        r.session_id@.len() == 0,
        run.agent == ChatAgent::Codex ==> ({
            let f = replay_spec(empty_folder(), codex_lines@);
            &&& r.content@ == f.content
            &&& calls_view(r.tool_calls@) == f.tool_calls
            &&& blocks_view(r.content_blocks@) == f.blocks
        }),
        run.agent == ChatAgent::Claude ==> ({
            let c = claude_replay(empty_claude(), claude_records@, claude_records@.len());
            &&& r.content@ == c.content
            &&& calls_view(r.tool_calls@) == c.calls
            &&& blocks_view(r.content_blocks@) == c.blocks
        }),
{
    match run.agent {
        ChatAgent::Claude => parse_claude_run_to_message(claude_records, run),
        ChatAgent::Codex => parse_codex_run_to_message(codex_lines, run),
    }
}

} // verus!
