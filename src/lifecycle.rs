//! The run lifecycle: the status transitions of a run record, the recovery of
//! runs left `Running` by a previous process, and the messages of a session
//! rebuilt from its run records and logs.
use vstd::prelude::*;

use crate::claude_log::ClaudeRecord;
use crate::run_log::LogLine;
use crate::text::owned;
use crate::types::{opt_view, ChatAgent, ChatMessage, MessageRole, RunEntry, RunStatus, UsageData};

verus! {

/// The fields that no transition touches.
pub open spec fn same_request(a: RunEntry, b: RunEntry) -> bool {
    &&& a.run_id@ == b.run_id@
    &&& a.user_message_id@ == b.user_message_id@
    &&& a.user_message@ == b.user_message@
    &&& opt_view(a.model) == opt_view(b.model)
    &&& opt_view(a.execution_mode) == opt_view(b.execution_mode)
    &&& opt_view(a.thinking_level) == opt_view(b.thinking_level)
    &&& a.started_at == b.started_at
}

pub fn clone_opt(o: &Option<String>) -> (r: Option<String>)
    ensures
        r == *o,
{
    match o {
        Some(s) => Some(s.clone()),
        None => None,
    }
}

fn owned_opt(o: Option<&str>) -> (r: Option<String>)
    ensures
        opt_view(r) == crate::mode_policy::opt_str_view(o),
{
    match o {
        Some(s) => Some(owned(s)),
        None => None,
    }
}

/// A copy of a run record.
pub fn copy_run(run: &RunEntry) -> (r: RunEntry)
    ensures
        r == *run,
{
    RunEntry {
        run_id: run.run_id.clone(),
        user_message_id: run.user_message_id.clone(),
        user_message: run.user_message.clone(),
        model: clone_opt(&run.model),
        execution_mode: clone_opt(&run.execution_mode),
        thinking_level: clone_opt(&run.thinking_level),
        started_at: run.started_at,
        ended_at: run.ended_at,
        status: run.status,
        assistant_message_id: clone_opt(&run.assistant_message_id),
        cancelled: run.cancelled,
        recovered: run.recovered,
        agent: run.agent,
        claude_session_id: clone_opt(&run.claude_session_id),
        codex_session_id: clone_opt(&run.codex_session_id),
        pid: run.pid,
        usage: run.usage,
    }
}

/// A new run: `Running`, with its assistant message id assigned up front so
/// that a crashed run still shows a placeholder.
pub fn new_run_entry(
    run_id: &str,
    user_message_id: &str,
    user_message: &str,
    model: Option<&str>,
    execution_mode: Option<&str>,
    thinking_level: Option<&str>,
    started_at: u64,
    assistant_message_id: &str,
    agent: ChatAgent,
) -> (r: RunEntry)
    ensures
        r.run_id@ == run_id@,
        r.user_message_id@ == user_message_id@,
        r.user_message@ == user_message@,
        opt_view(r.model) == crate::mode_policy::opt_str_view(model),
        opt_view(r.execution_mode) == crate::mode_policy::opt_str_view(execution_mode),
        opt_view(r.thinking_level) == crate::mode_policy::opt_str_view(thinking_level),
        r.started_at == started_at,
        r.ended_at is None,
        r.status == RunStatus::Running,
        opt_view(r.assistant_message_id) == Some(assistant_message_id@),
        !r.cancelled && !r.recovered,
        r.agent == agent,
        r.claude_session_id is None && r.codex_session_id is None,
        r.pid is None && r.usage is None,
{
    RunEntry {
        run_id: owned(run_id),
        user_message_id: owned(user_message_id),
        user_message: owned(user_message),
        model: owned_opt(model),
        execution_mode: owned_opt(execution_mode),
        thinking_level: owned_opt(thinking_level),
        started_at,
        ended_at: None,
        status: RunStatus::Running,
        assistant_message_id: Some(owned(assistant_message_id)),
        cancelled: false,
        recovered: false,
        agent,
        claude_session_id: None,
        codex_session_id: None,
        pid: None,
        usage: None,
    }
}

/// `new` is `old` completed at `now`.
pub open spec fn completed_record(
    new: RunEntry,
    old: RunEntry,
    now: u64,
    assistant_message_id: Seq<char>,
    agent: ChatAgent,
    agent_session_id: Option<Seq<char>>,
    usage: Option<UsageData>,
) -> bool {
    &&& same_request(new, old)
    &&& new.status == RunStatus::Completed
    &&& new.ended_at == Some(now)
    &&& opt_view(new.assistant_message_id) == Some(assistant_message_id)
    &&& new.agent == agent
    &&& agent == ChatAgent::Claude ==> opt_view(new.claude_session_id) == agent_session_id
        && opt_view(new.codex_session_id) == opt_view(old.codex_session_id)
    &&& agent == ChatAgent::Codex ==> opt_view(new.codex_session_id) == agent_session_id
        && opt_view(new.claude_session_id) == opt_view(old.claude_session_id)
    &&& new.usage == usage
    &&& new.cancelled == old.cancelled
    &&& new.recovered == old.recovered
    &&& new.pid == old.pid
}

/// `Running → Completed`: records the end, the assistant message, the agent,
/// its resume token and the usage.
pub fn complete_run(
    run: &mut RunEntry,
    now: u64,
    assistant_message_id: &str,
    agent: ChatAgent,
    agent_session_id: Option<&str>,
    usage: Option<UsageData>,
)
    ensures
        completed_record(
            *final(run),
            *old(run),
            now,
            assistant_message_id@,
            agent,
            crate::mode_policy::opt_str_view(agent_session_id),
            usage,
        ),
{
    run.status = RunStatus::Completed;
    run.ended_at = Some(now);
    run.assistant_message_id = Some(owned(assistant_message_id));
    run.agent = agent;
    match agent {
        ChatAgent::Claude => run.claude_session_id = owned_opt(agent_session_id),
        ChatAgent::Codex => run.codex_session_id = owned_opt(agent_session_id),
    }
    run.usage = usage;
}

/// `Running → Cancelled`, keeping the assistant message id given (none when
/// the send is undone).
pub fn cancel_run(run: &mut RunEntry, now: u64, assistant_message_id: Option<&str>)
    ensures
        same_request(*final(run), *old(run)),
        final(run).status == RunStatus::Cancelled,
        final(run).ended_at == Some(now),
        final(run).cancelled,
        opt_view(final(run).assistant_message_id) == crate::mode_policy::opt_str_view(
            assistant_message_id,
        ),
        final(run).recovered == old(run).recovered,
        final(run).usage == old(run).usage,
        final(run).pid == old(run).pid,
        final(run).agent == old(run).agent,
{
    run.status = RunStatus::Cancelled;
    run.ended_at = Some(now);
    run.cancelled = true;
    run.assistant_message_id = owned_opt(assistant_message_id);
}

/// `→ Crashed` during recovery; with `new_assistant_id`, a fresh assistant
/// message id is recorded so the UI can show a placeholder.
pub fn crash_run(run: &mut RunEntry, now: u64, new_assistant_id: Option<&str>)
    ensures
        same_request(*final(run), *old(run)),
        final(run).status == RunStatus::Crashed,
        final(run).ended_at == Some(now),
        final(run).recovered,
        opt_view(final(run).assistant_message_id) == match new_assistant_id {
            Some(id) => Some(id@),
            None => opt_view(old(run).assistant_message_id),
        },
        final(run).cancelled == old(run).cancelled,
        final(run).usage == old(run).usage,
        final(run).pid == old(run).pid,
        final(run).agent == old(run).agent,
{
    run.status = RunStatus::Crashed;
    run.ended_at = Some(now);
    run.recovered = true;
    if let Some(id) = new_assistant_id {
        run.assistant_message_id = Some(owned(id));
    }
}

/// `i` is the first position of a run with id `id`.
pub open spec fn is_first_run(runs: Seq<RunEntry>, id: Seq<char>, i: int) -> bool {
    &&& 0 <= i < runs.len()
    &&& runs[i].run_id@ == id
    &&& forall|j: int| 0 <= j < i ==> #[trigger] runs[j].run_id@ != id
}

/// The metadata record of a session: its runs and the resume token of each agent.
#[derive(Debug, Clone)]
pub struct SessionMetadata {
    pub worktree_id: String,
    pub name: String,
    pub order: u32,
    pub runs: Vec<RunEntry>,
    pub claude_session_id: Option<String>,
    pub codex_session_id: Option<String>,
}

/// Completes run `run_id` of a session (the first with that id) and records
/// the agent's resume token for the session when one is given; nothing else
/// changes.
pub fn complete_session_run(
    meta: &mut SessionMetadata,
    run_id: &str,
    now: u64,
    assistant_message_id: &str,
    agent: ChatAgent,
    agent_session_id: Option<&str>,
    usage: Option<UsageData>,
)
    ensures
        final(meta).worktree_id == old(meta).worktree_id,
        final(meta).name == old(meta).name,
        final(meta).order == old(meta).order,
        final(meta).runs@.len() == old(meta).runs@.len(),
        forall|j: int|
            0 <= j < old(meta).runs@.len() && !is_first_run(old(meta).runs@, run_id@, j)
                ==> #[trigger] final(meta).runs@[j] == old(meta).runs@[j],
        forall|i: int|
            is_first_run(old(meta).runs@, run_id@, i) ==> completed_record(
                #[trigger] final(meta).runs@[i],
                old(meta).runs@[i],
                now,
                assistant_message_id@,
                agent,
                crate::mode_policy::opt_str_view(agent_session_id),
                usage,
            ),
        match agent_session_id {
            Some(sid) => if agent == ChatAgent::Claude {
                opt_view(final(meta).claude_session_id) == Some(sid@) && final(meta).codex_session_id
                    == old(meta).codex_session_id
            } else {
                opt_view(final(meta).codex_session_id) == Some(sid@)
                    && final(meta).claude_session_id == old(meta).claude_session_id
            },
            None => final(meta).claude_session_id == old(meta).claude_session_id
                && final(meta).codex_session_id == old(meta).codex_session_id,
        },
{
    match find_run(&meta.runs, run_id) {
        Some(i) => {
            let mut run = copy_run(&meta.runs[i]);
            complete_run(&mut run, now, assistant_message_id, agent, agent_session_id, usage);
            meta.runs.set(i, run);
            assert forall|j: int|
                0 <= j < old(meta).runs@.len() && !is_first_run(old(meta).runs@, run_id@, j)
                    implies #[trigger] meta.runs@[j] == old(meta).runs@[j] by {
                if j == i {
                    assert(is_first_run(old(meta).runs@, run_id@, j));
                }
            }
            assert forall|k: int| is_first_run(old(meta).runs@, run_id@, k) implies k == i by {
                if k < i {
                    assert(old(meta).runs@[k].run_id@ != run_id@);
                } else if k > i {
                    assert(old(meta).runs@[i as int].run_id@ != run_id@);
                }
            }
        },
        None => {},
    }
    if let Some(sid) = agent_session_id {
        match agent {
            ChatAgent::Claude => meta.claude_session_id = Some(owned(sid)),
            ChatAgent::Codex => meta.codex_session_id = Some(owned(sid)),
        }
    }
}

/// The position of the run with id `run_id`.
pub fn find_run(runs: &Vec<RunEntry>, run_id: &str) -> (r: Option<usize>)
    ensures
        match r {
            Some(i) => is_first_run(runs@, run_id@, i as int),
            None => forall|j: int| 0 <= j < runs@.len() ==> #[trigger] runs@[j].run_id@ != run_id@,
        },
{
    let mut i: usize = 0;
    while i < runs.len()
        invariant
            i <= runs@.len(),
            forall|j: int| 0 <= j < i ==> #[trigger] runs@[j].run_id@ != run_id@,
        decreases runs@.len() - i,
    {
        if crate::text::str_eq(runs[i].run_id.as_str(), run_id) {
            return Some(i);
        }
        i = i + 1;
    }
    None
}

/// Marks every `Running` run cancelled (the user cancelled it), keeping the
/// assistant message id it was given at start. Returns whether any run changed.
pub fn mark_running_runs_cancelled(runs: &mut Vec<RunEntry>, now: u64) -> (r: bool)
    ensures
        final(runs)@.len() == old(runs)@.len(),
        r == exists|j: int| 0 <= j < old(runs)@.len() && #[trigger] old(runs)@[j].status == RunStatus::Running,
        forall|j: int|
            0 <= j < old(runs)@.len() ==> #[trigger] final(runs)@[j] == if old(runs)@[j].status
                == RunStatus::Running {
                RunEntry {
                    status: RunStatus::Cancelled,
                    ended_at: Some(now),
                    cancelled: true,
                    ..old(runs)@[j]
                }
            } else {
                old(runs)@[j]
            },
{
    let mut modified = false;
    let mut i: usize = 0;
    while i < runs.len()
        invariant
            i <= runs@.len(),
            runs@.len() == old(runs)@.len(),
            modified == exists|j: int| 0 <= j < i && #[trigger] old(runs)@[j].status == RunStatus::Running,
            forall|j: int| i <= j < runs@.len() ==> #[trigger] runs@[j] == old(runs)@[j],
            forall|j: int|
                0 <= j < i ==> #[trigger] runs@[j] == if old(runs)@[j].status == RunStatus::Running {
                    RunEntry {
                        status: RunStatus::Cancelled,
                        ended_at: Some(now),
                        cancelled: true,
                        ..old(runs)@[j]
                    }
                } else {
                    old(runs)@[j]
                },
        decreases runs@.len() - i,
    {
        if runs[i].status == RunStatus::Running {
            let mut run = copy_run(&runs[i]);
            run.status = RunStatus::Cancelled;
            run.ended_at = Some(now);
            run.cancelled = true;
            runs.set(i, run);
            modified = true;
        }
        i = i + 1;
    }
    modified
}

/// What recovery found about one run.
#[derive(Debug, Clone)]
pub struct RecoveredRun {
    pub session_id: String,
    pub worktree_id: String,
    pub run_id: String,
    pub user_message: String,
    /// True if the process is still running and can be resumed.
    pub resumable: bool,
}

/// Recovery of one run at startup: a `Running` run whose process is still
/// alive becomes `Resumable`; any other `Running` run becomes `Crashed` with a
/// fresh assistant message id. Such a run is reported; other runs are left as
/// they are.
pub fn recover_run(
    session_id: &str,
    worktree_id: &str,
    run: &mut RunEntry,
    process_alive: bool,
    now: u64,
) -> (r: Option<RecoveredRun>)
    ensures
        same_request(*final(run), *old(run)),
        old(run).status != RunStatus::Running ==> r is None && *final(run) == *old(run),
        old(run).status == RunStatus::Running ==> {
            &&& r is Some
            &&& r->Some_0.session_id@ == session_id@
            &&& r->Some_0.worktree_id@ == worktree_id@
            &&& r->Some_0.run_id@ == old(run).run_id@
            &&& r->Some_0.user_message@ == old(run).user_message@
            &&& r->Some_0.resumable == process_alive
            &&& if process_alive {
                *final(run) == RunEntry { status: RunStatus::Resumable, ..*old(run) }
            } else {
                &&& final(run).status == RunStatus::Crashed
                &&& final(run).ended_at == Some(now)
                &&& final(run).recovered
                &&& final(run).assistant_message_id is Some
                &&& crate::run_log::message_id_text(final(run).assistant_message_id->Some_0@)
                &&& final(run).cancelled == old(run).cancelled
                &&& final(run).pid == old(run).pid
                &&& final(run).usage == old(run).usage
                &&& final(run).agent == old(run).agent
            }
        },
{
    if run.status != RunStatus::Running {
        return None;
    }
    if process_alive {
        run.status = RunStatus::Resumable;
    } else {
        let id = crate::run_log::new_message_id();
        crash_run(run, now, Some(id.as_str()));
    }
    Some(
        RecoveredRun {
            session_id: owned(session_id),
            worktree_id: owned(worktree_id),
            run_id: run.run_id.clone(),
            user_message: run.user_message.clone(),
            resumable: process_alive,
        },
    )
}

/// The placeholder for a crashed run that left no content.
pub open spec fn lost_response() -> Seq<char> {
    "*Response lost - Jean was closed before receiving a response.*"@
}

/// A run that was cancelled before any reply: its user message is withdrawn.
pub open spec fn undone_send(run: RunEntry) -> bool {
    run.status == RunStatus::Cancelled && run.assistant_message_id is None
}

/// The runs still `Running`, in order.
pub fn incomplete_runs(runs: &Vec<RunEntry>) -> (r: Vec<RunEntry>)
    ensures
        r@ == runs@.filter(|e: RunEntry| e.status == RunStatus::Running),
{
    let mut out: Vec<RunEntry> = Vec::new();
    let mut i: usize = 0;
    proof {
        reveal(Seq::filter);
        assert(runs@.subrange(0, 0) =~= Seq::<RunEntry>::empty());
    }
    while i < runs.len()
        invariant
            i <= runs@.len(),
            out@ == runs@.subrange(0, i as int).filter(|e: RunEntry| e.status == RunStatus::Running),
        decreases runs@.len() - i,
    {
        proof {
            reveal(Seq::filter);
            assert(runs@.subrange(0, i + 1).drop_last() =~= runs@.subrange(0, i as int));
            assert(runs@.subrange(0, i + 1).last() == runs@[i as int]);
        }
        if runs[i].status == RunStatus::Running {
            out.push(copy_run(&runs[i]));
        }
        i = i + 1;
    }
    assert(runs@.subrange(0, runs@.len() as int) =~= runs@);
    out
}

/// Which messages of a run a session shows: the user message unless the send
/// was undone, and the assistant message once the run has ended.
pub fn shown_messages(run: &RunEntry) -> (r: (bool, bool))
    ensures
        r.0 == !undone_send(*run),
        r.1 == (!undone_send(*run) && run.status != RunStatus::Running),
{
    let undone = run.status == RunStatus::Cancelled && run.assistant_message_id.is_none();
    (!undone, !undone && run.status != RunStatus::Running)
}

/// The assistant message of a finished run: the replay of its log, or the
/// placeholder for a crashed run that left no content and no tool calls.
pub fn assistant_message(
    session_id: &str,
    run: &RunEntry,
    codex_lines: &Vec<LogLine>,
    claude_records: &Vec<ClaudeRecord>,
) -> (r: ChatMessage)
    ensures
        r.session_id@ == session_id@,
        r.role == MessageRole::Assistant,
        r.timestamp == run.started_at,
        ({
            let replayed = crate::run_log::replay_spec(
                crate::item_folder::empty_folder(),
                codex_lines@,
            );
            let c = crate::claude_log::claude_replay(
                crate::claude_log::empty_claude(),
                claude_records@,
                claude_records@.len(),
            );
            let (content, calls, blocks) = if run.agent == ChatAgent::Codex {
                (replayed.content, replayed.tool_calls, replayed.blocks)
            } else {
                (c.content, c.calls, c.blocks)
            };
            &&& crate::run_log::assistant_shell(r, *run)
            &&& crate::types::calls_view(r.tool_calls@) == calls
            &&& crate::types::blocks_view(r.content_blocks@) == blocks
            &&& r.content@ == if run.status == RunStatus::Crashed && content.len() == 0
                && calls.len() == 0 {
                lost_response()
            } else {
                content
            }
        }),
{
    let mut msg = crate::run_log::parse_run_to_message(codex_lines, claude_records, run);
    msg.session_id = owned(session_id);
    if run.status == RunStatus::Crashed && msg.content.as_str().unicode_len() == 0
        && msg.tool_calls.len() == 0 {
        assert(crate::types::calls_view(msg.tool_calls@).len() == 0);
        msg.content = owned("*Response lost - Jean was closed before receiving a response.*");
    }
    msg
}

/// The user message of a run.
pub fn user_message(session_id: &str, run: &RunEntry) -> (r: ChatMessage)
    ensures
        r.id@ == run.user_message_id@,
        r.session_id@ == session_id@,
        r.role == MessageRole::User,
        r.content@ == run.user_message@,
        r.timestamp == run.started_at,
        r.tool_calls@.len() == 0 && r.content_blocks@.len() == 0,
        opt_view(r.model) == opt_view(run.model),
        opt_view(r.execution_mode) == opt_view(run.execution_mode),
        opt_view(r.thinking_level) == opt_view(run.thinking_level),
        r.usage is None,
        !r.cancelled && !r.recovered && !r.plan_approved,
{
    ChatMessage {
        id: run.user_message_id.clone(),
        session_id: owned(session_id),
        role: MessageRole::User,
        content: run.user_message.clone(),
        timestamp: run.started_at,
        tool_calls: Vec::new(),
        content_blocks: Vec::new(),
        cancelled: false,
        plan_approved: false,
        model: clone_opt(&run.model),
        execution_mode: clone_opt(&run.execution_mode),
        thinking_level: clone_opt(&run.thinking_level),
        recovered: false,
        usage: None,
    }
}

} // verus!
