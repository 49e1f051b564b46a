//! Supervisor core for agent CLIs that stream newline-delimited JSON events.
//!
//! - `codex_args`, `mode_policy`: the argument vector and environment of a run,
//!   with its ordering laws.
//! - `codex_exec`, `types`, `events`: the event stream, the chat data model and
//!   the UI event payloads.
//! - `item_folder`: thread items into text, content blocks, tool calls and UI
//!   events, with delta derivation and idempotent tool creation.
//! - `tail`: the line logic of the NDJSON tailer.
//! - `supervisor`, `pty`: the decisions of the detached and interactive
//!   supervisors.
//! - `run_log`, `claude_log`, `lifecycle`, `oneshot`: replay of stored logs,
//!   run status transitions and recovery, one-shot results.
//! - `stderr`, `cli_install`: error tails and release selection.
//! - `text`, `assoc`: string and association-list helpers.

pub mod assoc;
pub mod claude_log;
pub mod cli_install;
pub mod codex_args;
pub mod codex_exec;
pub mod events;
pub mod item_folder;
pub mod lifecycle;
pub mod mode_policy;
pub mod oneshot;
pub mod pty;
pub mod registry;
pub mod run_log;
pub mod stderr;
pub mod supervisor;
pub mod tail;
pub mod text;
pub mod types;
