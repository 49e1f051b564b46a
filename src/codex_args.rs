//! Command-line arguments and environment for one run of the agent CLI.
//!
//! The order of the arguments is policy: global flags precede `exec`, every
//! `exec`-level option follows it and precedes `resume <token>`, and the prompt
//! (or `-`, read the prompt from stdin) comes last.
use vstd::prelude::*;

use crate::mode_policy::{opt_str_view, ExecutionMode};
use crate::text::{is_prefix, owned, push_str, push_string, str_eq, strs, trim_str, trimmed};

verus! {

/// The reasoning levels a user can pick.
#[derive(Debug, Clone, Copy, PartialEq, Eq, Structural)]
pub enum ThinkingLevel {
    Off,
    Minimal,
    Low,
    Medium,
    High,
    Xhigh,
}

impl ThinkingLevel {
    pub open spec fn effort_name(self) -> Option<Seq<char>> {
        match self {
            ThinkingLevel::Off => None,
            ThinkingLevel::Minimal => Some("minimal"@),
            ThinkingLevel::Low => Some("low"@),
            ThinkingLevel::Medium => Some("medium"@),
            ThinkingLevel::High => Some("high"@),
            ThinkingLevel::Xhigh => Some("xhigh"@),
        }
    }

    /// The reasoning effort that the CLI understands for this level; none for `Off`.
    pub fn codex_reasoning_effort(&self) -> (r: Option<&'static str>)
        ensures
            opt_str_view(r) == self.effort_name(),
    {
        match self {
            ThinkingLevel::Off => None,
            ThinkingLevel::Minimal => Some("minimal"),
            ThinkingLevel::Low => Some("low"),
            ThinkingLevel::Medium => Some("medium"),
            ThinkingLevel::High => Some("high"),
            ThinkingLevel::Xhigh => Some("xhigh"),
        }
    }
}

/// The effort a chosen level stands for, if any.
pub open spec fn level_effort(level: Option<ThinkingLevel>) -> Option<Seq<char>> {
    match level {
        Some(l) => l.effort_name(),
        None => None,
    }
}

pub open spec fn opt_level(level: Option<&ThinkingLevel>) -> Option<ThinkingLevel> {
    match level {
        Some(l) => Some(*l),
        None => None,
    }
}

fn level_effort_str(level: Option<&ThinkingLevel>) -> (r: Option<&'static str>)
    ensures
        opt_str_view(r) == level_effort(opt_level(level)),
{
    match level {
        Some(l) => l.codex_reasoning_effort(),
        None => None,
    }
}

/// `minimal` becomes `low` (the CLI refuses `minimal` with tools enabled); an
/// empty or blank effort is dropped; any other effort passes unchanged.
pub open spec fn normalized_effort(e: Option<Seq<char>>) -> Option<Seq<char>> {
    match e {
        Some(x) => if x == "minimal"@ {
            Some("low"@)
        } else if trimmed(x).len() == 0 {
            None
        } else {
            Some(x)
        },
        None => None,
    }
}

pub fn normalize_reasoning_effort<'a>(effort: Option<&'a str>) -> (r: Option<&'a str>)
    ensures
        opt_str_view(r) == normalized_effort(opt_str_view(effort)),
{
    match effort {
        Some(e) => {
            if str_eq(e, "minimal") {
                Some("low")
            } else if trim_str(e).unicode_len() == 0 {
                None
            } else {
                Some(e)
            }
        },
        None => None,
    }
}

pub open spec fn bypass_flag() -> Seq<char> {
    "--dangerously-bypass-approvals-and-sandbox"@
}

pub open spec fn network_config() -> Seq<char> {
    "sandbox_workspace_write.network_access=true"@
}

/// Flags before `exec`: web search, then the mode's global switch.
pub open spec fn global_flags(mode: ExecutionMode, interactive: bool) -> Seq<Seq<char>> {
    match mode {
        ExecutionMode::Yolo => seq!["--search"@, bypass_flag()],
        ExecutionMode::Build => if interactive {
            seq!["--search"@, "--full-auto"@]
        } else {
            seq!["--search"@]
        },
        ExecutionMode::Plan => seq!["--search"@],
    }
}

/// The `exec`-level sandbox and approval options of a mode. A detached run never
/// waits for approval; an interactive build run asks through the terminal.
pub open spec fn sandbox_flags(mode: ExecutionMode, interactive: bool) -> Seq<Seq<char>> {
    match mode {
        ExecutionMode::Plan => if interactive {
            seq!["--sandbox"@, "read-only"@]
        } else {
            seq!["--ask-for-approval"@, "never"@, "--sandbox"@, "read-only"@]
        },
        ExecutionMode::Build => if interactive {
            seq!["--config"@, network_config()]
        } else {
            seq![
                "--ask-for-approval"@,
                "never"@,
                "--sandbox"@,
                "workspace-write"@,
                "--config"@,
                network_config(),
            ]
        },
        ExecutionMode::Yolo => Seq::empty(),
    }
}

/// `--model <m>` with `m` trimmed, unless `m` is absent or blank.
pub open spec fn model_flags(model: Option<Seq<char>>) -> Seq<Seq<char>> {
    match model {
        Some(m) => if trimmed(m).len() > 0 {
            seq!["--model"@, trimmed(m)]
        } else {
            Seq::empty()
        },
        None => Seq::empty(),
    }
}

pub open spec fn effort_config(e: Seq<char>) -> Seq<char> {
    "model_reasoning_effort=\""@ + e + "\""@
}

pub open spec fn effort_flags(effort: Option<Seq<char>>) -> Seq<Seq<char>> {
    match normalized_effort(effort) {
        Some(e) => seq!["--config"@, effort_config(e)],
        None => Seq::empty(),
    }
}

pub open spec fn resume_flags(resume: Option<Seq<char>>) -> Seq<Seq<char>> {
    match resume {
        Some(t) => seq!["resume"@, t],
        None => Seq::empty(),
    }
}

/// The `exec` token and the options that every run has.
pub open spec fn exec_head(working_dir: Seq<char>) -> Seq<Seq<char>> {
    seq!["exec"@, "--color"@, "never"@, "--skip-git-repo-check"@, "--cd"@, working_dir]
}

/// The whole argument vector.
pub open spec fn codex_args(
    mode: ExecutionMode,
    interactive: bool,
    working_dir: Seq<char>,
    model: Option<Seq<char>>,
    effort: Option<Seq<char>>,
    resume: Option<Seq<char>>,
    prompt: Seq<char>,
) -> Seq<Seq<char>> {
    global_flags(mode, interactive) + exec_head(working_dir) + sandbox_flags(mode, interactive)
        + model_flags(model) + effort_flags(effort) + seq!["--json"@] + resume_flags(resume)
        + seq![prompt]
}

/// The texts held by a vector of name/value pairs.
pub open spec fn pairs(v: Seq<(String, String)>) -> Seq<(Seq<char>, Seq<char>)> {
    v.map_values(|p: (String, String)| (p.0@, p.1@))
}

/// Diagnostic variables: session, worktree and agent always, the language when given.
pub open spec fn codex_env(session_id: Seq<char>, worktree_id: Seq<char>, lang: Option<Seq<char>>) -> Seq<
    (Seq<char>, Seq<char>),
> {
    let base = seq![
        ("JEAN_SESSION_ID"@, session_id),
        ("JEAN_WORKTREE_ID"@, worktree_id),
        ("JEAN_AGENT"@, "codex"@),
    ];
    match lang {
        Some(l) => base.push(("JEAN_AI_LANGUAGE"@, l)),
        None => base,
    }
}

fn push_pair(env: &mut Vec<(String, String)>, k: &str, v: &str)
    ensures
        pairs(final(env)@) == pairs(old(env)@).push((k@, v@)),
{
    env.push((owned(k), owned(v)));
    assert(pairs(env@) =~= pairs(old(env)@).push((k@, v@)));
}

fn push_exec_head(args: &mut Vec<String>, working_dir: &str)
    ensures
        strs(final(args)@) == strs(old(args)@) + exec_head(working_dir@),
{
    push_str(args, "exec");
    push_str(args, "--color");
    push_str(args, "never");
    push_str(args, "--skip-git-repo-check");
    push_str(args, "--cd");
    push_str(args, working_dir);
    assert(strs(args@) =~= strs(old(args)@) + exec_head(working_dir@));
}

fn push_global_flags(args: &mut Vec<String>, mode: ExecutionMode, interactive: bool)
    ensures
        strs(final(args)@) == strs(old(args)@) + global_flags(mode, interactive),
{
    push_str(args, "--search");
    match mode {
        ExecutionMode::Yolo => push_str(args, "--dangerously-bypass-approvals-and-sandbox"),
        ExecutionMode::Build => {
            if interactive {
                push_str(args, "--full-auto");
            }
        },
        ExecutionMode::Plan => {},
    }
    assert(strs(args@) =~= strs(old(args)@) + global_flags(mode, interactive));
}

fn push_sandbox_flags(args: &mut Vec<String>, mode: ExecutionMode, interactive: bool)
    ensures
        strs(final(args)@) == strs(old(args)@) + sandbox_flags(mode, interactive),
{
    match mode {
        ExecutionMode::Plan => {
            if !interactive {
                push_str(args, "--ask-for-approval");
                push_str(args, "never");
            }
            push_str(args, "--sandbox");
            push_str(args, "read-only");
        },
        ExecutionMode::Build => {
            if !interactive {
                push_str(args, "--ask-for-approval");
                push_str(args, "never");
                push_str(args, "--sandbox");
                push_str(args, "workspace-write");
            }
            push_str(args, "--config");
            push_str(args, "sandbox_workspace_write.network_access=true");
        },
        ExecutionMode::Yolo => {},
    }
    assert(strs(args@) =~= strs(old(args)@) + sandbox_flags(mode, interactive));
}

fn push_model_flags(args: &mut Vec<String>, model: Option<&str>)
    ensures
        strs(final(args)@) == strs(old(args)@) + model_flags(opt_str_view(model)),
{
    if let Some(m) = model {
        let m = trim_str(m);
        if m.unicode_len() > 0 {
            push_str(args, "--model");
            push_str(args, m);
        }
    }
    assert(strs(args@) =~= strs(old(args)@) + model_flags(opt_str_view(model)));
}

fn push_effort_flags(args: &mut Vec<String>, effort: Option<&str>)
    ensures
        strs(final(args)@) == strs(old(args)@) + effort_flags(opt_str_view(effort)),
{
    if let Some(e) = normalize_reasoning_effort(effort) {
        push_str(args, "--config");
        let c = String::from_str("model_reasoning_effort=\"").concat(e).concat("\"");
        push_string(args, c);
    }
    assert(strs(args@) =~= strs(old(args)@) + effort_flags(opt_str_view(effort)));
}

fn build_codex_args(
    session_id: &str,
    worktree_id: &str,
    existing_codex_session_id: Option<&str>,
    model: Option<&str>,
    reasoning_effort: Option<&str>,
    execution_mode: Option<&str>,
    working_dir: &str,
    ai_language: Option<&str>,
    interactive: bool,
    prompt: &str,
) -> (r: (Vec<String>, Vec<(String, String)>))
    ensures
        strs(r.0@) == codex_args(
            crate::mode_policy::mode_of(opt_str_view(execution_mode)),
            interactive,
            working_dir@,
            opt_str_view(model),
            opt_str_view(reasoning_effort),
            opt_str_view(existing_codex_session_id),
            prompt@,
        ),
        pairs(r.1@) == codex_env(session_id@, worktree_id@, opt_str_view(ai_language)),
{
    let mode = ExecutionMode::from_optional_str(execution_mode);
    let mut args: Vec<String> = Vec::new();
    assert(strs(args@) =~= Seq::empty());
    push_global_flags(&mut args, mode, interactive);
    push_exec_head(&mut args, working_dir);
    push_sandbox_flags(&mut args, mode, interactive);
    push_model_flags(&mut args, model);
    push_effort_flags(&mut args, reasoning_effort);
    push_str(&mut args, "--json");
    let ghost before_resume = strs(args@);
    if let Some(sid) = existing_codex_session_id {
        push_str(&mut args, "resume");
        push_str(&mut args, sid);
    }
    assert(strs(args@) =~= before_resume + resume_flags(opt_str_view(existing_codex_session_id)));
    push_str(&mut args, prompt);

    let mut env: Vec<(String, String)> = Vec::new();
    push_pair(&mut env, "JEAN_SESSION_ID", session_id);
    push_pair(&mut env, "JEAN_WORKTREE_ID", worktree_id);
    push_pair(&mut env, "JEAN_AGENT", "codex");
    if let Some(lang) = ai_language {
        push_pair(&mut env, "JEAN_AI_LANGUAGE", lang);
    }
    assert(pairs(env@) =~= codex_env(session_id@, worktree_id@, opt_str_view(ai_language)));
    (args, env)
}

/// Arguments and environment for a detached run, which reads its prompt from
/// stdin (`-`) and never waits for approval.
pub fn build_codex_args_detached(
    session_id: &str,
    worktree_id: &str,
    existing_codex_session_id: Option<&str>,
    model: Option<&str>,
    reasoning_effort: Option<&ThinkingLevel>,
    execution_mode: Option<&str>,
    working_dir: &str,
    ai_language: Option<&str>,
) -> (r: (Vec<String>, Vec<(String, String)>))
    ensures
        strs(r.0@) == codex_args(
            crate::mode_policy::mode_of(opt_str_view(execution_mode)),
            false,
            working_dir@,
            opt_str_view(model),
            level_effort(opt_level(reasoning_effort)),
            opt_str_view(existing_codex_session_id),
            "-"@,
        ),
        pairs(r.1@) == codex_env(session_id@, worktree_id@, opt_str_view(ai_language)),
{
    build_codex_args(
        session_id,
        worktree_id,
        existing_codex_session_id,
        model,
        level_effort_str(reasoning_effort),
        execution_mode,
        working_dir,
        ai_language,
        false,
        "-",
    )
}

/// Arguments and environment for an interactive run under a terminal, which
/// takes the prompt as its last argument so stdin stays free for approvals.
pub fn build_codex_args_interactive(
    session_id: &str,
    worktree_id: &str,
    existing_codex_session_id: Option<&str>,
    model: Option<&str>,
    reasoning_effort: Option<&ThinkingLevel>,
    execution_mode: Option<&str>,
    working_dir: &str,
    ai_language: Option<&str>,
    prompt: &str,
) -> (r: (Vec<String>, Vec<(String, String)>))
    ensures
        strs(r.0@) == codex_args(
            crate::mode_policy::mode_of(opt_str_view(execution_mode)),
            true,
            working_dir@,
            opt_str_view(model),
            level_effort(opt_level(reasoning_effort)),
            opt_str_view(existing_codex_session_id),
            prompt@,
        ),
        pairs(r.1@) == codex_env(session_id@, worktree_id@, opt_str_view(ai_language)),
{
    build_codex_args(
        session_id,
        worktree_id,
        existing_codex_session_id,
        model,
        level_effort_str(reasoning_effort),
        execution_mode,
        working_dir,
        ai_language,
        true,
        prompt,
    )
}

/// The arguments of a one-shot run: no approvals, read-only sandbox, prompt
/// from stdin. A model is passed as given unless it is blank.
pub open spec fn oneshot_args(working_dir: Seq<char>, model: Option<Seq<char>>, effort: Option<
    Seq<char>,
>) -> Seq<Seq<char>> {
    let m = match model {
        Some(x) => if trimmed(x).len() > 0 {
            seq!["--model"@, x]
        } else {
            Seq::empty()
        },
        None => Seq::empty(),
    };
    seq![
        "--ask-for-approval"@,
        "never"@,
        "exec"@,
        "--skip-git-repo-check"@,
        "--cd"@,
        working_dir,
    ] + m + effort_flags(effort) + seq!["--sandbox"@, "read-only"@, "--json"@, "-"@]
}

pub fn build_codex_args_oneshot(
    working_dir: &str,
    model: Option<&str>,
    reasoning_effort: Option<&str>,
) -> (r: Vec<String>)
    ensures
        strs(r@) == oneshot_args(working_dir@, opt_str_view(model), opt_str_view(reasoning_effort)),
{
    let mut args: Vec<String> = Vec::new();
    push_str(&mut args, "--ask-for-approval");
    push_str(&mut args, "never");
    push_str(&mut args, "exec");
    push_str(&mut args, "--skip-git-repo-check");
    push_str(&mut args, "--cd");
    push_str(&mut args, working_dir);
    let ghost head = strs(args@);
    if let Some(m) = model {
        if trim_str(m).unicode_len() > 0 {
            push_str(&mut args, "--model");
            push_str(&mut args, m);
        }
    }
    let ghost with_model = strs(args@);
    push_effort_flags(&mut args, reasoning_effort);
    push_str(&mut args, "--sandbox");
    push_str(&mut args, "read-only");
    push_str(&mut args, "--json");
    push_str(&mut args, "-");
    assert(strs(args@) =~= oneshot_args(
        working_dir@,
        opt_str_view(model),
        opt_str_view(reasoning_effort),
    ));
    args
}

/// The options that belong to `exec` and must not follow `resume`.
pub open spec fn is_exec_option(s: Seq<char>) -> bool {
    s == "--color"@ || s == "--skip-git-repo-check"@ || s == "--cd"@ || s == "--sandbox"@ || s
        == "--config"@ || s == "--json"@ || s == "--model"@ || s == "--ask-for-approval"@
}

proof fn lemma_literals_distinct()
    ensures
        !is_exec_option("--search"@),
        !is_exec_option(bypass_flag()),
        !is_exec_option("--full-auto"@),
        "--search"@ != "exec"@,
        !is_exec_option("exec"@),
        bypass_flag() != "exec"@,
        "--full-auto"@ != "exec"@,
        "--search"@ != "resume"@,
        bypass_flag() != "resume"@,
        "--full-auto"@ != "resume"@,
        "exec"@ != "--sandbox"@,
        "never"@ != "--sandbox"@,
        "--color"@ != "--sandbox"@,
        "--skip-git-repo-check"@ != "--sandbox"@,
        "--cd"@ != "--sandbox"@,
        "--model"@ != "--sandbox"@,
        "--config"@ != "--sandbox"@,
        "--json"@ != "--sandbox"@,
        "resume"@ != "--sandbox"@,
        "-"@ != "--sandbox"@,
        "--search"@ != "--sandbox"@,
        bypass_flag() != "--sandbox"@,
{
    reveal_strlit("--search");
    reveal_strlit("--dangerously-bypass-approvals-and-sandbox");
    reveal_strlit("--full-auto");
    reveal_strlit("exec");
    reveal_strlit("resume");
    reveal_strlit("never");
    reveal_strlit("--color");
    reveal_strlit("--skip-git-repo-check");
    reveal_strlit("--cd");
    reveal_strlit("--sandbox");
    reveal_strlit("--config");
    reveal_strlit("--json");
    reveal_strlit("--model");
    reveal_strlit("--ask-for-approval");
    reveal_strlit("-");
    assert("--search"@[3] != "--sandbox"@[3]);
    assert("exec"@[0] != "--color"@[0]);
    assert(bypass_flag().len() != "--sandbox"@.len());
    assert("--full-auto"@.len() != "--color"@.len());
    assert("--full-auto"@[2] != "--skip-git-repo-check"@[2]);
    assert("--full-auto"@.len() != "--cd"@.len());
    assert("--full-auto"@.len() != "--sandbox"@.len());
    assert("--full-auto"@[2] != "--config"@[2]);
    assert("--full-auto"@.len() != "--json"@.len());
    assert("--full-auto"@.len() != "--model"@.len());
    assert("--full-auto"@.len() != "--ask-for-approval"@.len());
    assert("--search"@.len() != "--color"@.len());
    assert("--search"@.len() != "--skip-git-repo-check"@.len());
    assert("--search"@.len() != "--cd"@.len());
    assert("--search"@[2] != "--config"@[2]);
    assert("--search"@.len() != "--json"@.len());
    assert("--search"@.len() != "--model"@.len());
    assert("--search"@.len() != "--ask-for-approval"@.len());
    assert(bypass_flag().len() != "--color"@.len());
    assert(bypass_flag().len() != "--skip-git-repo-check"@.len());
    assert(bypass_flag().len() != "--cd"@.len());
    assert(bypass_flag().len() != "--config"@.len());
    assert(bypass_flag().len() != "--json"@.len());
    assert(bypass_flag().len() != "--model"@.len());
    assert(bypass_flag().len() != "--ask-for-approval"@.len());
    assert("--search"@[0] != "exec"@[0]);
    assert(bypass_flag()[0] != "exec"@[0]);
    assert("--full-auto"@[0] != "exec"@[0]);
    assert("--search"@[0] != "resume"@[0]);
    assert(bypass_flag()[0] != "resume"@[0]);
    assert("--full-auto"@[0] != "resume"@[0]);
    assert("exec"@[0] != "--sandbox"@[0]);
    assert("never"@[0] != "--sandbox"@[0]);
    assert("--color"@.len() != "--sandbox"@.len());
    assert("--skip-git-repo-check"@.len() != "--sandbox"@.len());
    assert("--cd"@.len() != "--sandbox"@.len());
    assert("--model"@.len() != "--sandbox"@.len());
    assert("--config"@[2] != "--sandbox"@[2]);
    assert("--json"@.len() != "--sandbox"@.len());
    assert("resume"@[0] != "--sandbox"@[0]);
    assert("-"@.len() != "--sandbox"@.len());
}

/// Ordering of the argument vector, for every mode and input: the tokens before
/// `exec` are global flags (neither `exec`-level options nor `resume`); every
/// `exec`-level option token before the `resume` subcommand comes after `exec`;
/// a resume token makes `resume <token>` the last two tokens before the prompt;
/// the prompt (`-` for a detached run) is the last token.
pub proof fn lemma_argv_order(
    mode: ExecutionMode,
    interactive: bool,
    working_dir: Seq<char>,
    model: Option<Seq<char>>,
    effort: Option<Seq<char>>,
    resume: Option<Seq<char>>,
    prompt: Seq<char>,
)
    ensures
        ({
            let a = codex_args(mode, interactive, working_dir, model, effort, resume, prompt);
            let g = global_flags(mode, interactive).len() as int;
            let r = a.len() - 1 - resume_flags(resume).len();
            &&& a[g] == "exec"@
            &&& forall|i: int|
                0 <= i < g ==> !is_exec_option(#[trigger] a[i]) && a[i] != "exec"@ && a[i]
                    != "resume"@
            &&& forall|i: int| 0 <= i < r && is_exec_option(#[trigger] a[i]) ==> g < i
            &&& a[r - 1] == "--json"@
            &&& a[a.len() - 1] == prompt
            &&& (resume is Some ==> a[r] == "resume"@ && a[r + 1] == resume->0 && a.len() == r
                + 3)
            &&& (resume is None ==> r == a.len() - 1)
        }),
{
    lemma_literals_distinct();
    let a = codex_args(mode, interactive, working_dir, model, effort, resume, prompt);
    let gl = global_flags(mode, interactive);
    let g = gl.len() as int;
    assert(a[g] == "exec"@);
    let h = exec_head(working_dir);
    let sf = sandbox_flags(mode, interactive);
    let mf = model_flags(model);
    let ef = effort_flags(effort);
    let rf = resume_flags(resume);
    let head = gl + h + sf + mf + ef + seq!["--json"@];
    assert(a == head + rf + seq![prompt]);
    let r = a.len() - 1 - rf.len();
    assert(r == head.len());
    assert(head[r - 1] == "--json"@);
    assert(a[r - 1] == "--json"@);
    assert(a[a.len() - 1] == prompt);
    assert forall|i: int| 0 <= i < g implies !is_exec_option(#[trigger] a[i]) && a[i] != "exec"@
        && a[i] != "resume"@ by {
        assert(a[i] == gl[i]);
    }
    assert forall|i: int| 0 <= i < r && is_exec_option(#[trigger] a[i]) implies g < i by {
        if i < g {
            assert(a[i] == gl[i]);
        } else if i == g {
            assert(a[i] == "exec"@);
        }
    }
    if resume is Some {
        assert(a[r] == rf[0]);
        assert(a[r + 1] == rf[1]);
    }
}

pub open spec fn no_resume(q: Seq<Seq<char>>) -> bool {
    forall|k: int| 0 <= k < q.len() ==> #[trigger] q[k] != "resume"@
}

proof fn lemma_no_resume_concat(x: Seq<Seq<char>>, y: Seq<Seq<char>>)
    requires
        no_resume(x),
        no_resume(y),
    ensures
        no_resume(x + y),
{
    assert forall|k: int| 0 <= k < (x + y).len() implies #[trigger] (x + y)[k] != "resume"@ by {
        if k < x.len() {
            assert((x + y)[k] == x[k]);
        } else {
            assert((x + y)[k] == y[k - x.len()]);
        }
    }
}

proof fn lemma_fixed_tokens_not_resume()
    ensures
        "--search"@ != "resume"@,
        bypass_flag() != "resume"@,
        "--full-auto"@ != "resume"@,
        "exec"@ != "resume"@,
        "--color"@ != "resume"@,
        "never"@ != "resume"@,
        "--skip-git-repo-check"@ != "resume"@,
        "--cd"@ != "resume"@,
        "--sandbox"@ != "resume"@,
        "read-only"@ != "resume"@,
        "workspace-write"@ != "resume"@,
        "--ask-for-approval"@ != "resume"@,
        "--config"@ != "resume"@,
        network_config() != "resume"@,
        "--model"@ != "resume"@,
        "--json"@ != "resume"@,
        forall|e: Seq<char>| #[trigger] effort_config(e) != "resume"@,
{
    reveal_strlit("resume");
    reveal_strlit("--search");
    reveal_strlit("--dangerously-bypass-approvals-and-sandbox");
    reveal_strlit("--full-auto");
    reveal_strlit("exec");
    reveal_strlit("--color");
    reveal_strlit("never");
    reveal_strlit("--skip-git-repo-check");
    reveal_strlit("--cd");
    reveal_strlit("--sandbox");
    reveal_strlit("read-only");
    reveal_strlit("workspace-write");
    reveal_strlit("--ask-for-approval");
    reveal_strlit("--config");
    reveal_strlit("sandbox_workspace_write.network_access=true");
    reveal_strlit("--model");
    reveal_strlit("--json");
    reveal_strlit("model_reasoning_effort=\"");
    assert("--search"@[0] != "resume"@[0]);
    assert(bypass_flag()[0] != "resume"@[0]);
    assert("--full-auto"@[0] != "resume"@[0]);
    assert("exec"@[0] != "resume"@[0]);
    assert("--color"@[0] != "resume"@[0]);
    assert("never"@[0] != "resume"@[0]);
    assert("--skip-git-repo-check"@[0] != "resume"@[0]);
    assert("--cd"@[0] != "resume"@[0]);
    assert("--sandbox"@[0] != "resume"@[0]);
    assert("read-only"@[2] != "resume"@[2]);
    assert("workspace-write"@[0] != "resume"@[0]);
    assert("--ask-for-approval"@[0] != "resume"@[0]);
    assert("--config"@[0] != "resume"@[0]);
    assert(network_config()[0] != "resume"@[0]);
    assert("--model"@[0] != "resume"@[0]);
    assert("--json"@[0] != "resume"@[0]);
    assert forall|e: Seq<char>| #[trigger] effort_config(e) != "resume"@ by {
        assert(effort_config(e)[0] != "resume"@[0]);
    }
}

/// A resume token makes the `resume` subcommand appear exactly once, just
/// before the token; without one, `resume` does not appear. This holds when
/// no value passed along (working directory, trimmed model, token, prompt) is
/// itself the word `resume`.
pub proof fn lemma_resume_once(
    mode: ExecutionMode,
    interactive: bool,
    working_dir: Seq<char>,
    model: Option<Seq<char>>,
    effort: Option<Seq<char>>,
    resume: Option<Seq<char>>,
    prompt: Seq<char>,
)
    requires
        working_dir != "resume"@,
        prompt != "resume"@,
        model is Some ==> trimmed(model->0) != "resume"@,
        resume is Some ==> resume->0 != "resume"@,
    ensures
        ({
            let a = codex_args(mode, interactive, working_dir, model, effort, resume, prompt);
            &&& (resume is Some ==> a[a.len() - 3] == "resume"@ && a[a.len() - 2] == resume->0
                && forall|i: int| 0 <= i < a.len() && #[trigger] a[i] == "resume"@ ==> i == a.len()
                    - 3)
            &&& (resume is None ==> forall|i: int| 0 <= i < a.len() ==> #[trigger] a[i] != "resume"@)
        }),
{
    lemma_fixed_tokens_not_resume();
    let a = codex_args(mode, interactive, working_dir, model, effort, resume, prompt);
    let gl = global_flags(mode, interactive);
    let h = exec_head(working_dir);
    let sf = sandbox_flags(mode, interactive);
    let mf = model_flags(model);
    let ef = effort_flags(effort);
    let js = seq!["--json"@];
    assert(no_resume(gl)) by {
        assert forall|k: int| 0 <= k < gl.len() implies #[trigger] gl[k] != "resume"@ by {}
    }
    assert(no_resume(h));
    assert(no_resume(sf)) by {
        assert forall|k: int| 0 <= k < sf.len() implies #[trigger] sf[k] != "resume"@ by {}
    }
    assert(no_resume(mf)) by {
        assert forall|k: int| 0 <= k < mf.len() implies #[trigger] mf[k] != "resume"@ by {}
    }
    assert(no_resume(ef)) by {
        assert forall|k: int| 0 <= k < ef.len() implies #[trigger] ef[k] != "resume"@ by {
            match normalized_effort(effort) {
                Some(e) => {
                    assert(effort_config(e) != "resume"@);
                },
                None => {},
            }
        }
    }
    assert(no_resume(js));
    lemma_no_resume_concat(gl, h);
    lemma_no_resume_concat(gl + h, sf);
    lemma_no_resume_concat(gl + h + sf, mf);
    lemma_no_resume_concat(gl + h + sf + mf, ef);
    lemma_no_resume_concat(gl + h + sf + mf + ef, js);
    let head = gl + h + sf + mf + ef + js;
    let rf = resume_flags(resume);
    assert(a == head + rf + seq![prompt]);
    assert forall|i: int| 0 <= i < a.len() && #[trigger] a[i] == "resume"@ implies (resume is Some
        && i == a.len() - 3) by {
        if i < head.len() {
            assert(a[i] == head[i]);
        } else if i < head.len() + rf.len() {
            assert(a[i] == rf[i - head.len()]);
            if resume is Some && i == head.len() + 1 {
                assert(rf[1] == resume->0);
            }
        } else {
            assert(a[i] == prompt);
        }
    }
    if resume is Some {
        assert(a[a.len() - 3] == rf[0]);
        assert(a[a.len() - 2] == rf[1]);
    }
}

/// Detached plan and build runs pass `--ask-for-approval never`; a detached yolo
/// run passes the bypass flag, and the only `--sandbox` or `--ask-for-approval`
/// tokens in it are values of `--cd`, `--model` or `resume`, never flags.
pub proof fn lemma_detached_approval_policy(
    mode: ExecutionMode,
    working_dir: Seq<char>,
    model: Option<Seq<char>>,
    effort: Option<Seq<char>>,
    resume: Option<Seq<char>>,
)
    ensures
        ({
            let a = codex_args(mode, false, working_dir, model, effort, resume, "-"@);
            let g = global_flags(mode, false).len() as int;
            &&& (mode != ExecutionMode::Yolo ==> a[g + 6] == "--ask-for-approval"@ && a[g + 7]
                == "never"@)
            &&& (mode == ExecutionMode::Yolo ==> a[1] == bypass_flag() && forall|i: int|
                0 <= i < a.len() && (#[trigger] a[i] == "--sandbox"@ || a[i]
                    == "--ask-for-approval"@) ==> i > 0 && (a[i - 1] == "--cd"@ || a[i - 1]
                    == "--model"@ || a[i - 1] == "resume"@))
        }),
{
    lemma_literals_distinct();
    let a = codex_args(mode, false, working_dir, model, effort, resume, "-"@);
    if mode == ExecutionMode::Yolo {
        reveal_strlit("model_reasoning_effort=\"");
        reveal_strlit("--sandbox");
        reveal_strlit("--ask-for-approval");
        reveal_strlit("--search");
        reveal_strlit("--dangerously-bypass-approvals-and-sandbox");
        reveal_strlit("exec");
        reveal_strlit("--color");
        reveal_strlit("never");
        reveal_strlit("--skip-git-repo-check");
        reveal_strlit("--cd");
        reveal_strlit("--model");
        reveal_strlit("--config");
        reveal_strlit("--json");
        reveal_strlit("resume");
        reveal_strlit("-");
        assert forall|i: int|
            0 <= i < a.len() && (#[trigger] a[i] == "--sandbox"@ || a[i]
                == "--ask-for-approval"@) implies i > 0 && (a[i - 1] == "--cd"@ || a[i - 1]
            == "--model"@ || a[i - 1] == "resume"@) by {
            let q = "--ask-for-approval"@;
            assert(q.len() != "--search"@.len() && q.len() != bypass_flag().len() && q.len()
                != "exec"@.len() && q.len() != "--color"@.len() && q.len() != "never"@.len()
                && q.len() != "--skip-git-repo-check"@.len() && q.len() != "--cd"@.len() && q.len()
                != "--model"@.len() && q.len() != "--config"@.len() && q.len() != "--json"@.len()
                && q.len() != "resume"@.len() && q.len() != "-"@.len());
            match normalized_effort(effort) {
                Some(e) => {
                    assert(effort_config(e)[0] != "--sandbox"@[0]);
                    assert(effort_config(e)[0] != q[0]);
                },
                None => {},
            }
        }
    }
}

/// The start of the effort setting.
pub open spec fn effort_key() -> Seq<char> {
    "model_reasoning_effort="@
}

/// Whether a token sets the reasoning effort.
pub open spec fn sets_effort(t: Seq<char>) -> bool {
    is_prefix(effort_key(), t)
}

pub open spec fn no_effort_setting(q: Seq<Seq<char>>) -> bool {
    forall|k: int| 0 <= k < q.len() ==> !sets_effort(#[trigger] q[k])
}

proof fn lemma_no_effort_concat(x: Seq<Seq<char>>, y: Seq<Seq<char>>)
    requires
        no_effort_setting(x),
        no_effort_setting(y),
    ensures
        no_effort_setting(x + y),
{
    assert forall|k: int| 0 <= k < (x + y).len() implies !sets_effort(#[trigger] (x + y)[k]) by {
        if k < x.len() {
            assert((x + y)[k] == x[k]);
        } else {
            assert((x + y)[k] == y[k - x.len()]);
        }
    }
}

/// A token whose first character differs from `m` sets no effort.
proof fn lemma_not_m(t: Seq<char>)
    requires
        t.len() == 0 || t[0] != 'm',
    ensures
        !sets_effort(t),
{
    reveal_strlit("model_reasoning_effort=");
    if sets_effort(t) {
        assert(t.subrange(0, effort_key().len() as int)[0] == effort_key()[0]);
    }
}

/// Exactly one token sets the reasoning effort when an effort that is not
/// blank is given (and none otherwise), provided no value passed along
/// (working directory, trimmed model, resume token, prompt) starts like one.
pub proof fn lemma_effort_once(
    mode: ExecutionMode,
    interactive: bool,
    working_dir: Seq<char>,
    model: Option<Seq<char>>,
    effort: Option<Seq<char>>,
    resume: Option<Seq<char>>,
    prompt: Seq<char>,
)
    requires
        !sets_effort(working_dir),
        !sets_effort(prompt),
        model is Some ==> !sets_effort(trimmed(model->0)),
        resume is Some ==> !sets_effort(resume->0),
    ensures
        ({
            let a = codex_args(mode, interactive, working_dir, model, effort, resume, prompt);
            let k = global_flags(mode, interactive).len() + 6 + sandbox_flags(mode, interactive).len()
                + model_flags(model).len() as int;
            &&& (normalized_effort(effort) is Some ==> forall|i: int|
                0 <= i < a.len() && sets_effort(#[trigger] a[i]) ==> i == k + 1)
            &&& (normalized_effort(effort) is Some ==> sets_effort(a[k + 1]))
            &&& (normalized_effort(effort) is None ==> forall|i: int|
                0 <= i < a.len() ==> !sets_effort(#[trigger] a[i]))
        }),
{
    reveal_strlit("model_reasoning_effort=");
    reveal_strlit("model_reasoning_effort=\"");
    reveal_strlit("--search");
    reveal_strlit("--dangerously-bypass-approvals-and-sandbox");
    reveal_strlit("--full-auto");
    reveal_strlit("exec");
    reveal_strlit("--color");
    reveal_strlit("never");
    reveal_strlit("--skip-git-repo-check");
    reveal_strlit("--cd");
    reveal_strlit("--sandbox");
    reveal_strlit("read-only");
    reveal_strlit("workspace-write");
    reveal_strlit("--ask-for-approval");
    reveal_strlit("--config");
    reveal_strlit("sandbox_workspace_write.network_access=true");
    reveal_strlit("--model");
    reveal_strlit("--json");
    reveal_strlit("resume");
    let a = codex_args(mode, interactive, working_dir, model, effort, resume, prompt);
    let gl = global_flags(mode, interactive);
    let h = exec_head(working_dir);
    let sf = sandbox_flags(mode, interactive);
    let mf = model_flags(model);
    let ef = effort_flags(effort);
    let rf = resume_flags(resume);
    let tail = seq!["--json"@] + rf + seq![prompt];
    assert forall|t: Seq<char>|
        t == "--search"@ || t == bypass_flag() || t == "--full-auto"@ || t == "exec"@ || t
            == "--color"@ || t == "never"@ || t == "--skip-git-repo-check"@ || t == "--cd"@ || t
            == "--sandbox"@ || t == "read-only"@ || t == "workspace-write"@ || t
            == "--ask-for-approval"@ || t == "--config"@ || t == network_config() || t
            == "--model"@ || t == "--json"@ || t == "resume"@ implies !sets_effort(t) by {
        lemma_not_m(t);
    }
    assert(no_effort_setting(gl)) by {
        assert forall|j: int| 0 <= j < gl.len() implies !sets_effort(#[trigger] gl[j]) by {}
    }
    assert(no_effort_setting(h)) by {
        assert forall|j: int| 0 <= j < h.len() implies !sets_effort(#[trigger] h[j]) by {}
    }
    assert(no_effort_setting(sf)) by {
        assert forall|j: int| 0 <= j < sf.len() implies !sets_effort(#[trigger] sf[j]) by {}
    }
    assert(no_effort_setting(mf)) by {
        assert forall|j: int| 0 <= j < mf.len() implies !sets_effort(#[trigger] mf[j]) by {}
    }
    assert(no_effort_setting(tail)) by {
        assert forall|j: int| 0 <= j < tail.len() implies !sets_effort(#[trigger] tail[j]) by {
            if j >= 1 && j < 1 + rf.len() {
                assert(tail[j] == rf[j - 1]);
            }
        }
    }
    lemma_no_effort_concat(gl, h);
    lemma_no_effort_concat(gl + h, sf);
    lemma_no_effort_concat(gl + h + sf, mf);
    let head = gl + h + sf + mf;
    assert(a =~= head + ef + tail);
    assert(head.len() == global_flags(mode, interactive).len() + 6 + sandbox_flags(
        mode,
        interactive,
    ).len() + model_flags(model).len());
    match normalized_effort(effort) {
        Some(e) => {
            assert(sets_effort(effort_config(e))) by {
                assert(effort_config(e).subrange(0, effort_key().len() as int) =~= effort_key());
            }
            assert(a[head.len() + 1 as int] == effort_config(e));
            assert forall|i: int| 0 <= i < a.len() && sets_effort(#[trigger] a[i]) implies i
                == head.len() + 1 by {
                if i < head.len() {
                    assert(a[i] == head[i]);
                } else if i == head.len() {
                    assert(a[i] == "--config"@);
                } else if i > head.len() + 1 {
                    assert(a[i] == tail[i - head.len() - 2]);
                }
            }
        },
        None => {
            assert(ef =~= Seq::<Seq<char>>::empty());
            assert forall|i: int| 0 <= i < a.len() implies !sets_effort(#[trigger] a[i]) by {
                if i < head.len() {
                    assert(a[i] == head[i]);
                } else {
                    assert(a[i] == tail[i - head.len()]);
                }
            }
        },
    }
}

/// A reasoning effort that is not blank reaches the CLI as
/// `--config model_reasoning_effort="e"`, with `minimal` sent as `low`.
pub proof fn lemma_effort_config(
    mode: ExecutionMode,
    interactive: bool,
    working_dir: Seq<char>,
    model: Option<Seq<char>>,
    e: Seq<char>,
    resume: Option<Seq<char>>,
    prompt: Seq<char>,
)
    ensures
        ({
            let a = codex_args(mode, interactive, working_dir, model, Some(e), resume, prompt);
            let k = global_flags(mode, interactive).len() + 6 + sandbox_flags(mode, interactive).len()
                + model_flags(model).len() as int;
            let sent = if e == "minimal"@ {
                "low"@
            } else {
                e
            };
            (e == "minimal"@ || trimmed(e).len() > 0) ==> a[k] == "--config"@ && a[k + 1]
                == effort_config(sent)
        }),
{
}

} // verus!
