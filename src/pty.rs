//! Decisions of the interactive supervisor, which runs the CLI under a
//! pseudo-terminal: output is split into lines, JSON events go through the
//! item folder and into the run log, and free-text approval prompts are
//! detected so that the UI can answer them.
use vstd::prelude::*;
use vstd::string::StringSliceAdditionalSpecFns;

use crate::codex_exec::{CodexExecEvent, CodexThreadItem};
use crate::item_folder::{apply_spec, decimal, decimal_string, events_view, FolderEvent, ItemFolder};
use crate::mode_policy::{mode_of, opt_str_view, ExecutionMode};
use crate::run_log::{event_item, meta_marker};
use crate::supervisor::usage_of;
use crate::text::{
    contains, is_prefix, lower_of, occurs_in, owned, starts_with, to_lower, trim_end_str, trim_str,
    trimmed, trimmed_end,
};
use crate::types::{opt_view, UsageData};

verus! {

/// Largest prompt, in bytes, that is passed as an argument.
pub const MAX_INTERACTIVE_PROMPT_BYTES: usize = 24 * 1024;

/// Characters of free-text output kept as context for an approval prompt.
pub const PROMPT_TAIL_CHARS: usize = 2000;

/// Interactive runs exist for build mode only.
pub fn check_interactive_mode(execution_mode: Option<&str>) -> (r: Result<(), String>)
    ensures
        r is Ok <==> mode_of(opt_str_view(execution_mode)) == ExecutionMode::Build,
        r is Err ==> r->Err_0@ == "Interactive Codex execution is only supported in build mode"@,
{
    if ExecutionMode::from_optional_str(execution_mode) == ExecutionMode::Build {
        Ok(())
    } else {
        Err(owned("Interactive Codex execution is only supported in build mode"))
    }
}

/// A prompt longer than the argument limit is refused; the caller falls back
/// to a detached run.
pub fn check_prompt_size(prompt: &str) -> (r: Result<(), String>)
    ensures
        r is Ok <==> prompt.spec_bytes().len() as usize <= MAX_INTERACTIVE_PROMPT_BYTES,
        r is Err ==> r->Err_0@ == "Prompt too large for interactive Codex execution ("@ + decimal(
            prompt.spec_bytes().len() as usize as nat,
        ) + " bytes > "@ + decimal(MAX_INTERACTIVE_PROMPT_BYTES as nat) + ")."@,
{
    let n = prompt.len();
    if n <= MAX_INTERACTIVE_PROMPT_BYTES {
        Ok(())
    } else {
        let a = decimal_string(n);
        let b = decimal_string(MAX_INTERACTIVE_PROMPT_BYTES);
        Err(
            owned("Prompt too large for interactive Codex execution (").concat(a.as_str()).concat(
                " bytes > ",
            ).concat(b.as_str()).concat(")."),
        )
    }
}

/// An approval prompt mentions `[y/n]` or `(y/n)`, or `y/n` together with
/// `approve` or `proceed`, in any case.
pub open spec fn approval_prompt(s: Seq<char>) -> bool {
    let l = lower_of(s);
    occurs_in("[y/n]"@, l) || occurs_in("(y/n)"@, l) || (occurs_in("approve"@, l) && occurs_in(
        "y/n"@,
        l,
    )) || (occurs_in("proceed"@, l) && occurs_in("y/n"@, l))
}

pub fn looks_like_approval_prompt(s: &str) -> (r: bool)
    ensures
        r == approval_prompt(s@),
{
    let lower = to_lower(s);
    approval_in_lowered(lower.as_str())
}

/// Whether lowercased text `l` asks for approval (see `approval_prompt`).
pub fn approval_in_lowered(l: &str) -> (r: bool)
    ensures
        r == (occurs_in("[y/n]"@, l@) || occurs_in("(y/n)"@, l@) || (occurs_in("approve"@, l@)
            && occurs_in("y/n"@, l@)) || (occurs_in("proceed"@, l@) && occurs_in("y/n"@, l@))),
{
    contains(l, "[y/n]") || contains(l, "(y/n)") || (contains(l, "approve") && contains(l, "y/n"))
        || (contains(l, "proceed") && contains(l, "y/n"))
}

/// The last `PROMPT_TAIL_CHARS` characters of `t` (all of it when shorter).
pub open spec fn keep_tail(t: Seq<char>) -> Seq<char> {
    if t.len() > PROMPT_TAIL_CHARS {
        t.subrange(t.len() - PROMPT_TAIL_CHARS, t.len() as int)
    } else {
        t
    }
}

/// A request to answer an approval prompt: the command it is about (the last
/// command seen, or a placeholder) and the prompt text.
pub struct ApprovalRequest {
    pub tool_use_id: String,
    pub command: String,
    pub prompt: String,
}

pub open spec fn approval_target(last: Option<(Seq<char>, Seq<char>)>) -> (Seq<char>, Seq<char>) {
    match last {
        Some(p) => p,
        None => ("codex:approval"@, "(unknown)"@),
    }
}

pub open spec fn pair_view(p: Option<(String, String)>) -> Option<(Seq<char>, Seq<char>)> {
    match p {
        Some(x) => Some((x.0@, x.1@)),
        None => None,
    }
}

/// Why reading the terminal stopped.
#[derive(Debug, Clone, Copy, PartialEq, Eq, Structural)]
pub enum StreamEnd {
    Closed,
    Unregistered,
    ReadError,
}

/// What one line of terminal output asks of the caller.
pub struct PtyLineResult {
    /// A JSON event line to append to the run log.
    pub log_line: Option<String>,
    pub events: Vec<FolderEvent>,
    /// A failed turn or stream error, which ends the run.
    pub error: Option<String>,
    pub approval: Option<ApprovalRequest>,
}

/// The state of an interactive run.
pub struct InteractiveRun {
    pub folder: ItemFolder,
    pub codex_session_id: String,
    pub usage: Option<UsageData>,
    pub cancelled: bool,
    pub finished: bool,
    pub pending: String,
    pub last_command: Option<(String, String)>,
    pub awaiting_approval: bool,
    pub prompt_tail: String,
}

fn first_newline(s: &str) -> (r: Option<usize>)
    ensures
        match r {
            Some(i) => i < s@.len() && s@[i as int] == '\n' && forall|j: int|
                0 <= j < i ==> s@[j] != '\n',
            None => forall|j: int| 0 <= j < s@.len() ==> s@[j] != '\n',
        },
{
    let sv = crate::text::chars_of(s);
    let n = sv.len();
    let mut i: usize = 0;
    while i < n
        invariant
            sv@ == s@,
            n == s@.len(),
            i <= n,
            forall|j: int| 0 <= j < i ==> s@[j] != '\n',
        decreases n - i,
    {
        if sv[i] == '\n' {
            return Some(i);
        }
        i = i + 1;
    }
    None
}

/// The text without its trailing carriage returns.
pub open spec fn strip_cr(s: Seq<char>) -> Seq<char>
    decreases s.len(),
{
    if s.len() > 0 && s.last() == '\r' {
        strip_cr(s.drop_last())
    } else {
        s
    }
}

fn strip_cr_str(s: &str) -> (r: String)
    ensures
        r@ == strip_cr(s@),
{
    let sv = crate::text::chars_of(s);
    let mut end = sv.len();
    assert(s@.subrange(0, end as int) =~= s@);
    while end > 0 && sv[end - 1] == '\r'
        invariant
            sv@ == s@,
            end <= s@.len(),
            strip_cr(s@) == strip_cr(s@.subrange(0, end as int)),
        decreases end,
    {
        assert(s@.subrange(0, end as int).drop_last() =~= s@.subrange(0, end - 1));
        end = end - 1;
    }
    owned(s.substring_char(0, end))
}

/// The last `PROMPT_TAIL_CHARS` characters of `t`.
fn keep_tail_str(t: &str) -> (r: String)
    ensures
        r@ == keep_tail(t@),
{
    let n = t.unicode_len();
    if n > PROMPT_TAIL_CHARS {
        owned(t.substring_char(n - PROMPT_TAIL_CHARS, n))
    } else {
        owned(t)
    }
}

impl InteractiveRun {
    pub open spec fn wf(&self) -> bool {
        self.folder.wf()
    }

    pub fn new() -> (r: InteractiveRun)
        ensures
            r.wf(),
            r.folder@ == crate::item_folder::empty_folder(),
            r.pending@.len() == 0,
            r.prompt_tail@.len() == 0,
            r.last_command is None,
            !r.awaiting_approval && !r.cancelled && !r.finished,
    {
        InteractiveRun {
            folder: ItemFolder::new(),
            codex_session_id: String::new(),
            usage: None,
            cancelled: false,
            finished: false,
            pending: String::new(),
            last_command: None,
            awaiting_approval: false,
            prompt_tail: String::new(),
        }
    }

    fn approval(&self) -> (r: ApprovalRequest)
        ensures
            (r.tool_use_id@, r.command@) == approval_target(pair_view(self.last_command)),
            r.prompt@ == trimmed_end(self.prompt_tail@),
    {
        let prompt = owned(trim_end_str(self.prompt_tail.as_str()));
        match &self.last_command {
            Some((id, cmd)) => ApprovalRequest { tool_use_id: id.clone(), command: cmd.clone(), prompt },
            None => ApprovalRequest {
                tool_use_id: owned("codex:approval"),
                command: owned("(unknown)"),
                prompt,
            },
        }
    }

    /// Takes output read from the terminal and appends it to the pending text.
    pub fn take_output(&mut self, chunk: &str)
        ensures
            final(self).pending@ == old(self).pending@ + chunk@,
            final(self).folder == old(self).folder,
            final(self).last_command == old(self).last_command,
            final(self).awaiting_approval == old(self).awaiting_approval,
            final(self).prompt_tail == old(self).prompt_tail,
            final(self).finished == old(self).finished,
            final(self).cancelled == old(self).cancelled,
    {
        self.pending.append(chunk);
    }

    /// Checks the pending text that no newline has completed (TTY prompts are
    /// often printed without one). A prompt is reported at once, unless one is
    /// already awaited; it joins the prompt tail.
    pub fn probe_pending(&mut self) -> (r: Option<ApprovalRequest>)
        requires
            old(self).wf(),
        ensures
            final(self).wf(),
            final(self).folder@ == old(self).folder@,
            final(self).last_command == old(self).last_command,
            final(self).pending == old(self).pending,
            final(self).finished == old(self).finished,
            final(self).cancelled == old(self).cancelled,
            ({
                let probe = trimmed(old(self).pending@);
                let asks = !old(self).awaiting_approval && probe.len() > 0 && !is_prefix(
                    "{"@,
                    probe,
                ) && approval_prompt(probe);
                &&& (r is Some <==> asks)
                &&& final(self).awaiting_approval == (old(self).awaiting_approval || asks)
                &&& (asks ==> final(self).prompt_tail@ == keep_tail(old(self).prompt_tail@ + probe)
                    && r->Some_0.prompt@ == trimmed_end(final(self).prompt_tail@) && (
                r->Some_0.tool_use_id@,
                r->Some_0.command@,
            ) == approval_target(pair_view(old(self).last_command)))
                &&& (!asks ==> final(self).prompt_tail == old(self).prompt_tail)
            }),
    {
        if !self.awaiting_approval {
            let probe = trim_str(self.pending.as_str());
            if probe.unicode_len() > 0 && !starts_with(probe, "{") && looks_like_approval_prompt(
                probe,
            ) {
                let tail = owned(self.prompt_tail.as_str()).concat(probe);
                self.prompt_tail = keep_tail_str(tail.as_str());
                let req = self.approval();
                self.awaiting_approval = true;
                return Some(req);
            }
        }
        None
    }

    /// Ends the run when the output stream ends (`Closed`), the session is
    /// unregistered, or reading fails: only a stream that closes after the turn
    /// finished is not cancelled. Returns whether `done` is to be emitted.
    pub fn finish(&mut self, end: StreamEnd) -> (r: bool)
        ensures
            final(self).cancelled == match end {
                StreamEnd::Closed => !old(self).finished,
                _ => true,
            },
            r == !final(self).cancelled,
            final(self).folder == old(self).folder,
            final(self).finished == old(self).finished,
    {
        self.cancelled = match end {
            StreamEnd::Closed => !self.finished,
            _ => true,
        };
        !self.cancelled
    }

    /// Removes the first complete line from the pending text and returns it
    /// without its trailing carriage returns; none while no newline is pending.
    pub fn next_line(&mut self) -> (r: Option<String>)
        requires
            old(self).wf(),
        ensures
            final(self).wf(),
            final(self).folder@ == old(self).folder@,
            final(self).last_command == old(self).last_command,
            final(self).awaiting_approval == old(self).awaiting_approval,
            final(self).prompt_tail == old(self).prompt_tail,
            match r {
                None => final(self).pending == old(self).pending && forall|j: int|
                    0 <= j < old(self).pending@.len() ==> old(self).pending@[j] != '\n',
                Some(line) => exists|i: int|
                    0 <= i < old(self).pending@.len() && old(self).pending@[i] == '\n' && (forall|
                        j: int,
                    | 0 <= j < i ==> old(self).pending@[j] != '\n') && line@ == strip_cr(
                        old(self).pending@.subrange(0, i),
                    ) && final(self).pending@ == old(self).pending@.subrange(
                        i + 1,
                        old(self).pending@.len() as int,
                    ),
            },
    {
        let p = self.pending.as_str();
        match first_newline(p) {
            None => None,
            Some(idx) => {
                let n = p.unicode_len();
                let line = strip_cr_str(p.substring_char(0, idx));
                let rest = owned(p.substring_char(idx + 1, n));
                self.pending = rest;
                Some(line)
            },
        }
    }

    /// Handles one complete line of terminal output, with the event it
    /// decodes to, if any.
    pub fn on_pty_line(&mut self, line: &str, event: Option<&CodexExecEvent>) -> (r: PtyLineResult)
        requires
            old(self).wf(),
        ensures
            final(self).wf(),
            final(self).pending == old(self).pending,
            ({
                let t = trimmed(line@);
                if t.len() == 0 || occurs_in(meta_marker(), t) {
                    &&& final(self).folder@ == old(self).folder@
                    &&& r.log_line is None && r.events@.len() == 0 && r.error is None
                    &&& r.approval is None
                    &&& final(self).awaiting_approval == old(self).awaiting_approval
                    &&& final(self).prompt_tail == old(self).prompt_tail
                    &&& final(self).last_command == old(self).last_command
                    &&& final(self).finished == old(self).finished
                    &&& final(self).cancelled == old(self).cancelled
                    &&& final(self).usage == old(self).usage
                    &&& final(self).codex_session_id == old(self).codex_session_id
                } else if is_prefix("{"@, t) && event is Some {
                    let e = *event->Some_0;
                    &&& !final(self).awaiting_approval
                    &&& opt_view(r.log_line) == Some(t)
                    &&& r.approval is None
                    &&& match event_item(e) {
                        Some(item) => {
                            &&& (final(self).folder@, events_view(r.events@)) == apply_spec(
                                old(self).folder@,
                                item,
                            )
                            &&& r.error is None
                            &&& final(self).finished == old(self).finished
                            &&& final(self).cancelled == old(self).cancelled
                            &&& final(self).usage == old(self).usage
                            &&& final(self).codex_session_id == old(self).codex_session_id
                            &&& match item {
                                CodexThreadItem::CommandExecution(c) => pair_view(
                                    final(self).last_command,
                                ) == Some((c.id@, c.command@)),
                                _ => final(self).last_command == old(self).last_command,
                            }
                        },
                        None => {
                            &&& final(self).folder@ == old(self).folder@
                            &&& r.events@.len() == 0
                            &&& match e {
                                CodexExecEvent::TurnCompleted { usage } => final(self).usage
                                    == Some(usage_of(usage)) && final(self).finished
                                    && r.error is None && final(self).cancelled == old(
                                    self,
                                ).cancelled,
                                CodexExecEvent::TurnFailed { error } => opt_view(r.error) == Some(
                                    error.message@,
                                ) && final(self).finished && final(self).cancelled,
                                CodexExecEvent::StreamError { message } => opt_view(r.error)
                                    == Some(message@) && final(self).finished
                                    && final(self).cancelled,
                                CodexExecEvent::ThreadStarted { thread_id } => r.error is None
                                    && final(self).codex_session_id@ == (if thread_id@.len() > 0 {
                                    thread_id@
                                } else {
                                    old(self).codex_session_id@
                                }) && final(self).finished == old(self).finished
                                    && final(self).cancelled == old(self).cancelled,
                                _ => r.error is None && final(self).finished == old(
                                    self,
                                ).finished && final(self).cancelled == old(self).cancelled,
                            }
                        },
                    }
                } else {
                    let tail = keep_tail(old(self).prompt_tail@ + t + seq!['\n']);
                    let asks = approval_prompt(t) && !old(self).awaiting_approval;
                    &&& final(self).folder@ == old(self).folder@
                    &&& final(self).finished == old(self).finished
                    &&& final(self).cancelled == old(self).cancelled
                    &&& final(self).usage == old(self).usage
                    &&& final(self).codex_session_id == old(self).codex_session_id
                    &&& final(self).last_command == old(self).last_command
                    &&& r.log_line is None && r.events@.len() == 0 && r.error is None
                    &&& final(self).prompt_tail@ == tail
                    &&& (r.approval is Some <==> asks)
                    &&& final(self).awaiting_approval == (old(self).awaiting_approval || asks)
                    &&& (asks ==> r.approval->Some_0.prompt@ == trimmed_end(tail) && (
                    r.approval->Some_0.tool_use_id@,
                    r.approval->Some_0.command@,
                ) == approval_target(pair_view(old(self).last_command)))
                }
            }),
    {
        let mut res = PtyLineResult { log_line: None, events: Vec::new(), error: None, approval: None };
        let t = trim_str(line);
        if t.unicode_len() == 0 || contains(t, "\"_run_meta\"") {
            return res;
        }
        if starts_with(t, "{") && event.is_some() {
            self.awaiting_approval = false;
            res.log_line = Some(owned(t));
            match event {
                Some(CodexExecEvent::ThreadStarted { thread_id }) => {
                    if thread_id.as_str().unicode_len() > 0 {
                        self.codex_session_id = thread_id.clone();
                    }
                },
                Some(CodexExecEvent::TurnCompleted { usage }) => {
                    self.usage = Some(
                        UsageData {
                            input_tokens: usage.input_tokens,
                            output_tokens: usage.output_tokens,
                            cache_read_input_tokens: usage.cached_input_tokens,
                            cache_creation_input_tokens: 0,
                        },
                    );
                    self.finished = true;
                },
                Some(CodexExecEvent::TurnFailed { error }) => {
                    res.error = Some(error.message.clone());
                    self.cancelled = true;
                    self.finished = true;
                },
                Some(CodexExecEvent::StreamError { message }) => {
                    res.error = Some(message.clone());
                    self.cancelled = true;
                    self.finished = true;
                },
                Some(CodexExecEvent::ItemStarted { item }) => {
                    res.events = self.on_item(item);
                },
                Some(CodexExecEvent::ItemUpdated { item }) => {
                    res.events = self.on_item(item);
                },
                Some(CodexExecEvent::ItemCompleted { item }) => {
                    res.events = self.on_item(item);
                },
                _ => {},
            }
            return res;
        }
        let grown = owned(self.prompt_tail.as_str()).concat(t).concat("\n");
        proof {
            reveal_strlit("\n");
            assert("\n"@ =~= seq!['\n']);
        }
        self.prompt_tail = keep_tail_str(grown.as_str());
        if looks_like_approval_prompt(t) && !self.awaiting_approval {
            res.approval = Some(self.approval());
            self.awaiting_approval = true;
        }
        res
    }

    fn on_item(&mut self, item: &CodexThreadItem) -> (r: Vec<FolderEvent>)
        requires
            old(self).wf(),
        ensures
            final(self).wf(),
            (final(self).folder@, events_view(r@)) == apply_spec(old(self).folder@, *item),
            final(self).finished == old(self).finished,
            final(self).cancelled == old(self).cancelled,
            final(self).usage == old(self).usage,
            final(self).codex_session_id == old(self).codex_session_id,
            final(self).pending == old(self).pending,
            final(self).awaiting_approval == old(self).awaiting_approval,
            match *item {
                CodexThreadItem::CommandExecution(c) => pair_view(final(self).last_command) == Some(
                    (c.id@, c.command@),
                ),
                _ => final(self).last_command == old(self).last_command,
            },
    {
        if let CodexThreadItem::CommandExecution(c) = item {
            self.last_command = Some((c.id.clone(), c.command.clone()));
        }
        self.folder.apply_item(item)
    }
}

} // verus!
