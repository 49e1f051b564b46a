//! Execution modes and the sandbox/approval policy that each one selects.
use vstd::prelude::*;

use crate::text::{push_str, str_eq, strs};

verus! {

/// How much freedom the CLI is given for one run.
#[derive(Debug, Clone, Copy, PartialEq, Eq, Structural)]
pub enum ExecutionMode {
    Plan,
    Build,
    Yolo,
}

/// The mode that a textual mode name selects: `build` and `yolo` name their
/// modes, anything else (or nothing) means `plan`.
pub open spec fn mode_of(mode: Option<Seq<char>>) -> ExecutionMode {
    if mode == Some("build"@) {
        ExecutionMode::Build
    } else if mode == Some("yolo"@) {
        ExecutionMode::Yolo
    } else {
        ExecutionMode::Plan
    }
}

pub open spec fn opt_str_view(s: Option<&str>) -> Option<Seq<char>> {
    match s {
        Some(x) => Some(x@),
        None => None,
    }
}

impl ExecutionMode {
    pub fn from_optional_str(mode: Option<&str>) -> (r: Self)
        ensures
            r == mode_of(opt_str_view(mode)),
    {
        match mode {
            Some(m) => {
                if str_eq(m, "build") {
                    ExecutionMode::Build
                } else if str_eq(m, "yolo") {
                    ExecutionMode::Yolo
                } else {
                    proof {
                        reveal_strlit("build");
                        reveal_strlit("yolo");
                        reveal_strlit("plan");
                    }
                    ExecutionMode::Plan
                }
            },
            None => {
                proof {
                    reveal_strlit("build");
                    reveal_strlit("yolo");
                }
                ExecutionMode::Plan
            },
        }
    }
}

/// The sandbox that the CLI is told to run commands in.
#[derive(Debug, Clone, Copy, PartialEq, Eq, Structural)]
pub enum CodexSandbox {
    ReadOnly,
    WorkspaceWrite,
}

impl CodexSandbox {
    pub open spec fn cli_value(self) -> Seq<char> {
        match self {
            CodexSandbox::ReadOnly => "read-only"@,
            CodexSandbox::WorkspaceWrite => "workspace-write"@,
        }
    }

    pub fn as_cli_value(&self) -> (r: &'static str)
        ensures
            r@ == self.cli_value(),
    {
        match self {
            CodexSandbox::ReadOnly => "read-only",
            CodexSandbox::WorkspaceWrite => "workspace-write",
        }
    }
}

/// The global flags of a detached run, as data.
#[derive(Debug, Clone, PartialEq, Eq)]
pub struct CodexDetachedPolicy {
    pub mode: ExecutionMode,
    pub enable_search: bool,
    pub ask_for_approval: Option<&'static str>,
    pub sandbox: Option<CodexSandbox>,
    pub workspace_write_network_access: bool,
    pub bypass_approvals_and_sandbox: bool,
}

/// Plan and build never wait for approval and run sandboxed (read-only and
/// workspace-write, with network access); yolo bypasses both. Search is always on.
pub fn codex_detached_policy(mode: ExecutionMode) -> (r: CodexDetachedPolicy)
    ensures
        r.mode == mode,
        r.enable_search,
        r.workspace_write_network_access == (mode == ExecutionMode::Build),
        r.bypass_approvals_and_sandbox == (mode == ExecutionMode::Yolo),
        opt_str_view(r.ask_for_approval) == (if mode == ExecutionMode::Yolo {
            None
        } else {
            Some("never"@)
        }),
        r.sandbox == (match mode {
            ExecutionMode::Plan => Some(CodexSandbox::ReadOnly),
            ExecutionMode::Build => Some(CodexSandbox::WorkspaceWrite),
            ExecutionMode::Yolo => None,
        }),
{
    match mode {
        ExecutionMode::Build => CodexDetachedPolicy {
            mode,
            enable_search: true,
            ask_for_approval: Some("never"),
            sandbox: Some(CodexSandbox::WorkspaceWrite),
            workspace_write_network_access: true,
            bypass_approvals_and_sandbox: false,
        },
        ExecutionMode::Yolo => CodexDetachedPolicy {
            mode,
            enable_search: true,
            ask_for_approval: None,
            sandbox: None,
            workspace_write_network_access: false,
            bypass_approvals_and_sandbox: true,
        },
        ExecutionMode::Plan => CodexDetachedPolicy {
            mode,
            enable_search: true,
            ask_for_approval: Some("never"),
            sandbox: Some(CodexSandbox::ReadOnly),
            workspace_write_network_access: false,
            bypass_approvals_and_sandbox: false,
        },
    }
}

/// The flags that a policy stands for, in order.
pub open spec fn policy_args(p: CodexDetachedPolicy) -> Seq<Seq<char>> {
    let search = if p.enable_search {
        seq!["--search"@]
    } else {
        Seq::empty()
    };
    if p.bypass_approvals_and_sandbox {
        search + seq!["--dangerously-bypass-approvals-and-sandbox"@]
    } else {
        let approval = match p.ask_for_approval {
            Some(a) => seq!["--ask-for-approval"@, a@],
            None => Seq::empty(),
        };
        let sandbox = match p.sandbox {
            Some(s) => if s == CodexSandbox::WorkspaceWrite && p.workspace_write_network_access {
                seq![
                    "--sandbox"@,
                    s.cli_value(),
                    "--config"@,
                    "sandbox_workspace_write.network_access=true"@,
                ]
            } else {
                seq!["--sandbox"@, s.cli_value()]
            },
            None => Seq::empty(),
        };
        search + approval + sandbox
    }
}

/// Appends the flags of `policy`.
pub fn push_codex_detached_mode_args(args: &mut Vec<String>, policy: &CodexDetachedPolicy)
    ensures
        strs(final(args)@) == strs(old(args)@) + policy_args(*policy),
{
    let ghost start = strs(args@);
    if policy.enable_search {
        push_str(args, "--search");
    }
    assert(strs(args@) =~= start + (if policy.enable_search {
        seq!["--search"@]
    } else {
        Seq::empty()
    }));
    if policy.bypass_approvals_and_sandbox {
        push_str(args, "--dangerously-bypass-approvals-and-sandbox");
        assert(strs(args@) =~= strs(old(args)@) + policy_args(*policy));
        return;
    }
    let ghost mid = strs(args@);
    if let Some(approval) = policy.ask_for_approval {
        push_str(args, "--ask-for-approval");
        push_str(args, approval);
    }
    let ghost mid2 = strs(args@);
    assert(mid2 =~= mid + match policy.ask_for_approval {
        Some(a) => seq!["--ask-for-approval"@, a@],
        None => Seq::<Seq<char>>::empty(),
    });
    if let Some(sandbox) = policy.sandbox {
        push_str(args, "--sandbox");
        push_str(args, sandbox.as_cli_value());
        if sandbox == CodexSandbox::WorkspaceWrite && policy.workspace_write_network_access {
            push_str(args, "--config");
            push_str(args, "sandbox_workspace_write.network_access=true");
        }
    }
    assert(strs(args@) =~= strs(old(args)@) + policy_args(*policy));
}

} // verus!
