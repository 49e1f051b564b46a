use jean::lifecycle::{
    assistant_message, cancel_run, complete_run, mark_running_runs_cancelled, new_run_entry,
    recover_run, shown_messages, user_message, complete_session_run, SessionMetadata,
};
use jean::run_log::codex_input_prompt;
use jean::types::{ChatAgent, RunStatus, UsageData};

fn running() -> jean::types::RunEntry {
    new_run_entry("r1", "u1", "hello", Some("gpt"), Some("plan"), None, 10, "a1", ChatAgent::Codex)
}

#[test]
fn new_run_is_running_with_assistant_id() {
    let r = running();
    assert_eq!(r.status, RunStatus::Running);
    assert_eq!(r.assistant_message_id.as_deref(), Some("a1"));
    assert_eq!(r.ended_at, None);
}

#[test]
fn completion_records_usage_and_resume_token() {
    let mut r = running();
    let usage = UsageData { input_tokens: 1, output_tokens: 2, cache_read_input_tokens: 3, cache_creation_input_tokens: 0 };
    complete_run(&mut r, 20, "a1", ChatAgent::Codex, Some("thread-9"), Some(usage));
    assert_eq!(r.status, RunStatus::Completed);
    assert_eq!(r.ended_at, Some(20));
    assert_eq!(r.codex_session_id.as_deref(), Some("thread-9"));
    assert_eq!(r.claude_session_id, None);
    assert_eq!(r.usage, Some(usage));
}

#[test]
fn cancel_marks_ended_and_cancelled() {
    let mut r = running();
    cancel_run(&mut r, 30, None);
    assert_eq!(r.status, RunStatus::Cancelled);
    assert!(r.cancelled);
    assert_eq!(r.assistant_message_id, None);
}

#[test]
fn only_running_runs_are_cancelled() {
    let mut done = running();
    complete_run(&mut done, 5, "a0", ChatAgent::Codex, None, None);
    let mut runs = vec![done, running()];
    assert!(mark_running_runs_cancelled(&mut runs, 40));
    assert_eq!(runs[0].status, RunStatus::Completed);
    assert_eq!(runs[1].status, RunStatus::Cancelled);
    assert!(runs[1].cancelled);
    assert_eq!(runs[1].ended_at, Some(40));
    assert_eq!(runs[1].assistant_message_id.as_deref(), Some("a1"));
    assert_eq!(shown_messages(&runs[1]), (true, true));
    assert!(!mark_running_runs_cancelled(&mut runs, 41));
}

#[test]
fn recovery_resumes_live_and_crashes_dead_runs() {
    let mut live = running();
    let rec = recover_run("s", "w", &mut live, true, 50).unwrap();
    assert!(rec.resumable);
    assert_eq!(live.status, RunStatus::Resumable);
    let mut dead = running();
    let rec = recover_run("s", "w", &mut dead, false, 50).unwrap();
    assert!(!rec.resumable);
    assert_eq!(rec.run_id, "r1");
    assert_eq!(dead.status, RunStatus::Crashed);
    assert!(dead.recovered);
    let id = dead.assistant_message_id.clone().unwrap();
    assert_eq!(id.len(), 36);
    assert!(id.chars().enumerate().all(|(i, c)| if [8, 13, 18, 23].contains(&i) {
        c == '-'
    } else {
        c.is_ascii_digit() || ('a'..='f').contains(&c)
    }));
    assert!(recover_run("s", "w", &mut dead, false, 60).is_none());
}

#[test]
fn crashed_run_without_content_shows_placeholder() {
    let mut r = running();
    recover_run("s", "w", &mut r, false, 50);
    let msg = assistant_message("s", &r, &vec![], &vec![]);
    assert_eq!(msg.content, "*Response lost - Jean was closed before receiving a response.*");
    assert_eq!(msg.session_id, "s");
    let user = user_message("s", &r);
    assert_eq!(user.content, "hello");
    assert_eq!(user.id, "u1");
}

#[test]
fn input_prompt_sections() {
    let p = codex_input_prompt("Do it", Some("yolo"), None, false);
    assert_eq!(p, "Do it\n");
    let p = codex_input_prompt("Do it\n", Some("yolo"), Some("  French "), false);
    assert_eq!(p, "Respond to the user in French.\n\nDo it\n");
    let p = codex_input_prompt("x", None, None, true);
    assert!(p.starts_with("In plan mode, structure plans"));
    assert!(p.contains("Note: In this mode, outbound network access may be blocked by the sandbox."));
    assert!(p.ends_with("x\n"));
}

#[test]
fn undone_send_hides_both_messages() {
    let mut r = running();
    assert_eq!(shown_messages(&r), (true, false));
    cancel_run(&mut r, 30, None);
    assert_eq!(shown_messages(&r), (false, false));
    let mut c = running();
    cancel_run(&mut c, 30, Some("a1"));
    assert_eq!(shown_messages(&c), (true, true));
}

#[test]
fn incomplete_runs_are_the_running_ones() {
    let mut done = running();
    complete_run(&mut done, 5, "a0", ChatAgent::Codex, None, None);
    let runs = vec![running(), done, running()];
    let open = jean::lifecycle::incomplete_runs(&runs);
    assert_eq!(open.len(), 2);
    assert!(open.iter().all(|r| r.status == RunStatus::Running));
}

#[test]
fn completing_a_session_run_stores_the_resume_token() {
    let mut meta = SessionMetadata {
        worktree_id: "w".into(),
        name: "n".into(),
        order: 0,
        runs: vec![running()],
        claude_session_id: Some("c0".into()),
        codex_session_id: None,
    };
    complete_session_run(&mut meta, "r1", 9, "a1", ChatAgent::Codex, Some("th-1"), None);
    assert_eq!(meta.runs[0].status, RunStatus::Completed);
    assert_eq!(meta.codex_session_id.as_deref(), Some("th-1"));
    assert_eq!(meta.claude_session_id.as_deref(), Some("c0"));
    complete_session_run(&mut meta, "zz", 9, "a1", ChatAgent::Codex, None, None);
    assert_eq!(meta.codex_session_id.as_deref(), Some("th-1"));
}

#[test]
fn recovery_leaves_finished_runs_alone() {
    let mut done = running();
    complete_run(&mut done, 5, "a0", ChatAgent::Codex, None, None);
    done.pid = Some(4);
    assert!(recover_run("s", "w", &mut done, false, 50).is_none());
    assert_eq!(done.status, RunStatus::Completed);
    assert_eq!(done.pid, Some(4));
    assert!(!done.recovered);
}
