//! Decisions of the detached supervisor. The caller spawns the CLI, polls the
//! log with a tailer, probes the process and the registry, sleeps between
//! polls and emits UI events; this module decides what each line and each
//! poll mean.
use vstd::prelude::*;

use crate::codex_exec::{CodexExecEvent, CodexUsage};
use crate::item_folder::{apply_spec, events_view, EventV, FolderEvent, FolderV, ItemFolder};
use crate::run_log::{is_skipped_line, replay_line, replay_spec, skipped_line, LogLine};
use crate::text::owned;
use crate::types::{ContentBlock, ToolCall, UsageData};

verus! {

/// What a run of the CLI produced.
pub struct CodexResponse {
    pub content: String,
    pub session_id: String,
    pub tool_calls: Vec<ToolCall>,
    pub content_blocks: Vec<ContentBlock>,
    pub cancelled: bool,
    pub usage: Option<UsageData>,
}

/// Time without any JSON output after which a starting run is given up.
pub const STARTUP_TIMEOUT_MS: u64 = 120_000;

/// Time without output after the process died before the run is concluded.
pub const DEAD_PROCESS_TIMEOUT_MS: u64 = 2_000;

/// The state of a detached run while its log is tailed.
pub struct DetachedRun {
    pub folder: ItemFolder,
    pub codex_session_id: String,
    pub usage: Option<UsageData>,
    pub completed: bool,
    pub received_output: bool,
}

pub struct RunV {
    pub folder: FolderV,
    pub session: Seq<char>,
    pub usage: Option<UsageData>,
    pub completed: bool,
    pub received: bool,
}

impl View for DetachedRun {
    type V = RunV;

    open spec fn view(&self) -> RunV {
        RunV {
            folder: self.folder@,
            session: self.codex_session_id@,
            usage: self.usage,
            completed: self.completed,
            received: self.received_output,
        }
    }
}

pub open spec fn usage_of(u: CodexUsage) -> UsageData {
    UsageData {
        input_tokens: u.input_tokens,
        output_tokens: u.output_tokens,
        cache_read_input_tokens: u.cached_input_tokens,
        cache_creation_input_tokens: 0,
    }
}

pub open spec fn result_view(r: Result<Vec<FolderEvent>, String>) -> Result<Seq<EventV>, Seq<char>> {
    match r {
        Ok(v) => Ok(events_view(v@)),
        Err(e) => Err(e@),
    }
}

/// One decoded event of a live run: the new state, and the events to emit or
/// the error that ends the run.
pub open spec fn event_step(s: RunV, e: CodexExecEvent) -> (RunV, Result<Seq<EventV>, Seq<char>>) {
    match e {
        CodexExecEvent::ThreadStarted { thread_id } => (
            RunV {
                session: if thread_id@.len() > 0 {
                    thread_id@
                } else {
                    s.session
                },
                ..s
            },
            Ok(Seq::empty()),
        ),
        CodexExecEvent::TurnCompleted { usage } => (
            RunV { usage: Some(usage_of(usage)), completed: true, ..s },
            Ok(Seq::empty()),
        ),
        CodexExecEvent::TurnFailed { error } => (s, Err("Codex turn failed: "@ + error.message@)),
        CodexExecEvent::StreamError { message } => (s, Err("Codex stream error: "@ + message@)),
        CodexExecEvent::TurnStarted => (s, Ok(Seq::empty())),
        CodexExecEvent::ItemStarted { item } => {
            let (f, ev) = apply_spec(s.folder, item);
            (RunV { folder: f, ..s }, Ok(ev))
        },
        CodexExecEvent::ItemUpdated { item } => {
            let (f, ev) = apply_spec(s.folder, item);
            (RunV { folder: f, ..s }, Ok(ev))
        },
        CodexExecEvent::ItemCompleted { item } => {
            let (f, ev) = apply_spec(s.folder, item);
            (RunV { folder: f, ..s }, Ok(ev))
        },
    }
}

/// One line of a live run: blank lines and the header are skipped; any other
/// JSON line, of a known kind or not, counts as output; the event of a line
/// that decodes to one is handled.
pub open spec fn line_step(s: RunV, line: LogLine) -> (RunV, Result<Seq<EventV>, Seq<char>>) {
    if skipped_line(line.text@) {
        (s, Ok(Seq::empty()))
    } else {
        let s1 = if line.is_json {
            RunV { received: true, ..s }
        } else {
            s
        };
        match line.event {
            Some(e) => event_step(s1, e),
            None => (s1, Ok(Seq::empty())),
        }
    }
}

/// What the supervisor does after a poll.
#[derive(Debug, Clone, Copy, PartialEq, Eq, Structural)]
pub enum PollDecision {
    /// The turn completed: emit `done`.
    Completed,
    /// The run was cancelled from outside: stop tailing.
    Cancelled,
    /// The process died and output stopped after JSON had been seen.
    ExitedAfterOutput,
    /// The process died before any JSON was seen.
    ExitedBeforeOutput,
    /// No JSON arrived in time; `kill` when the process is still alive.
    StartupTimeout { kill: bool },
    /// Sleep and poll again.
    KeepPolling,
}

pub open spec fn poll_decision(
    completed: bool,
    received: bool,
    registered: bool,
    alive: bool,
    since_last_output_ms: u64,
    since_start_ms: u64,
) -> PollDecision {
    if completed {
        PollDecision::Completed
    } else if !registered {
        PollDecision::Cancelled
    } else if !alive && since_last_output_ms > DEAD_PROCESS_TIMEOUT_MS {
        if received {
            PollDecision::ExitedAfterOutput
        } else {
            PollDecision::ExitedBeforeOutput
        }
    } else if !received && since_start_ms > STARTUP_TIMEOUT_MS {
        PollDecision::StartupTimeout { kill: alive }
    } else {
        PollDecision::KeepPolling
    }
}

/// The error text of a failed run, with the tail of its stderr log.
pub open spec fn failure_text(d: PollDecision, stderr_path: Seq<char>, tail: Option<Seq<char>>) -> Option<
    Seq<char>,
> {
    let suffix = match tail {
        Some(t) => "\n\nstderr (tail):\n"@ + t,
        None => Seq::empty(),
    };
    match d {
        PollDecision::ExitedAfterOutput => Some(
            "Codex process exited unexpectedly and stopped streaming output. (stderr: "@
                + stderr_path + ")"@ + suffix,
        ),
        PollDecision::ExitedBeforeOutput => Some(
            "Codex process exited before producing any output. (stderr: "@ + stderr_path + ")"@
                + suffix,
        ),
        PollDecision::StartupTimeout { kill } => Some(
            "Codex startup timeout (120s): no output received. (stderr: "@ + stderr_path + ")"@
                + suffix,
        ),
        _ => None,
    }
}

/// The error text for a poll decision that ends a run in failure.
pub fn failure_message(d: PollDecision, stderr_path: &str, stderr_tail: Option<&str>) -> (r:
    Option<String>)
    ensures
        crate::types::opt_view(r) == failure_text(
            d,
            stderr_path@,
            crate::mode_policy::opt_str_view(stderr_tail),
        ),
{
    let head = match d {
        PollDecision::ExitedAfterOutput => owned(
            "Codex process exited unexpectedly and stopped streaming output. (stderr: ",
        ),
        PollDecision::ExitedBeforeOutput => owned(
            "Codex process exited before producing any output. (stderr: ",
        ),
        PollDecision::StartupTimeout { .. } => owned(
            "Codex startup timeout (120s): no output received. (stderr: ",
        ),
        _ => {
            return None;
        },
    };
    let msg = head.concat(stderr_path).concat(")");
    match stderr_tail {
        Some(t) => Some(msg.concat("\n\nstderr (tail):\n").concat(t)),
        None => Some(msg),
    }
}

impl DetachedRun {
    pub open spec fn wf(&self) -> bool {
        self.folder.wf()
    }

    pub fn new() -> (r: DetachedRun)
        ensures
            r.wf(),
            r@.folder == crate::item_folder::empty_folder(),
            r@.session.len() == 0,
            r@.usage is None,
            !r@.completed,
            !r@.received,
    {
        DetachedRun {
            folder: ItemFolder::new(),
            codex_session_id: String::new(),
            usage: None,
            completed: false,
            received_output: false,
        }
    }

    /// Handles one line read from the log: the events to emit, or the error
    /// that ends the run (a failed turn or a stream error).
    pub fn on_line(&mut self, line: &LogLine) -> (r: Result<Vec<FolderEvent>, String>)
        requires
            old(self).wf(),
        ensures
            final(self).wf(),
            (final(self)@, result_view(r)) == line_step(old(self)@, *line),
    {
        let none: Vec<FolderEvent> = Vec::new();
        assert(events_view(none@) =~= Seq::empty());
        if is_skipped_line(line.text.as_str()) {
            return Ok(none);
        }
        if line.is_json {
            self.received_output = true;
        }
        match &line.event {
            None => Ok(none),
            Some(CodexExecEvent::ThreadStarted { thread_id }) => {
                if thread_id.as_str().unicode_len() > 0 {
                    self.codex_session_id = thread_id.clone();
                }
                Ok(none)
            },
            Some(CodexExecEvent::TurnCompleted { usage }) => {
                self.usage = Some(
                    UsageData {
                        input_tokens: usage.input_tokens,
                        output_tokens: usage.output_tokens,
                        cache_read_input_tokens: usage.cached_input_tokens,
                        cache_creation_input_tokens: 0,
                    },
                );
                self.completed = true;
                Ok(none)
            },
            Some(CodexExecEvent::TurnFailed { error }) => Err(
                owned("Codex turn failed: ").concat(error.message.as_str()),
            ),
            Some(CodexExecEvent::StreamError { message }) => Err(
                owned("Codex stream error: ").concat(message.as_str()),
            ),
            Some(CodexExecEvent::TurnStarted) => Ok(none),
            Some(CodexExecEvent::ItemStarted { item }) => Ok(self.folder.apply_item(item)),
            Some(CodexExecEvent::ItemUpdated { item }) => Ok(self.folder.apply_item(item)),
            Some(CodexExecEvent::ItemCompleted { item }) => Ok(self.folder.apply_item(item)),
        }
    }

    /// What to do after a poll, given whether the session is still registered,
    /// whether the process is alive, and the time since the last output and
    /// since the start.
    pub fn after_poll(
        &self,
        registered: bool,
        process_alive: bool,
        since_last_output_ms: u64,
        since_start_ms: u64,
    ) -> (r: PollDecision)
        ensures
            r == poll_decision(
                self.completed,
                self.received_output,
                registered,
                process_alive,
                since_last_output_ms,
                since_start_ms,
            ),
    {
        if self.completed {
            PollDecision::Completed
        } else if !registered {
            PollDecision::Cancelled
        } else if !process_alive && since_last_output_ms > DEAD_PROCESS_TIMEOUT_MS {
            if self.received_output {
                PollDecision::ExitedAfterOutput
            } else {
                PollDecision::ExitedBeforeOutput
            }
        } else if !self.received_output && since_start_ms > STARTUP_TIMEOUT_MS {
            PollDecision::StartupTimeout { kill: process_alive }
        } else {
            PollDecision::KeepPolling
        }
    }

    /// The response of a run that ended without failure.
    pub fn into_response(self, cancelled: bool) -> (r: CodexResponse)
        ensures
            r.content@ == self@.folder.content,
            crate::types::calls_view(r.tool_calls@) == self@.folder.tool_calls,
            crate::types::blocks_view(r.content_blocks@) == self@.folder.blocks,
            r.session_id@ == self@.session,
            r.usage == self@.usage,
            r.cancelled == cancelled,
    {
        CodexResponse {
            content: self.folder.content,
            session_id: self.codex_session_id,
            tool_calls: self.folder.tool_calls,
            content_blocks: self.folder.content_blocks,
            cancelled,
            usage: self.usage,
        }
    }
}

/// The state after a live run has handled `lines` in order.
pub open spec fn live_spec(s: RunV, lines: Seq<LogLine>) -> RunV
    decreases lines.len(),
{
    if lines.len() == 0 {
        s
    } else {
        live_spec(line_step(s, lines[0]).0, lines.drop_first())
    }
}

/// A line whose event ends a live run in failure.
pub open spec fn failing_line(line: LogLine) -> bool {
    match line.event {
        Some(CodexExecEvent::TurnFailed { .. }) => true,
        Some(CodexExecEvent::StreamError { .. }) => true,
        _ => false,
    }
}

/// Replay equivalence: over any lines that a live run handles without failing,
/// replaying them from the log reaches the same content, content blocks, tool
/// calls (ids, names, inputs, outputs) and item state as the live run.
pub proof fn lemma_replay_matches_live(s: RunV, lines: Seq<LogLine>)
    requires
        forall|k: int| 0 <= k < lines.len() ==> !failing_line(#[trigger] lines[k]),
    ensures
        live_spec(s, lines).folder == replay_spec(s.folder, lines),
    decreases lines.len(),
{
    if lines.len() > 0 {
        let l = lines[0];
        assert(!failing_line(lines[0]));
        assert(line_step(s, l).0.folder == replay_line(s.folder, l));
        let rest = lines.drop_first();
        assert forall|k: int| 0 <= k < rest.len() implies !failing_line(#[trigger] rest[k]) by {
            assert(rest[k] == lines[k + 1]);
        }
        lemma_replay_matches_live(line_step(s, l).0, rest);
    }
}

} // verus!
