//! One-shot runs (commit messages, PR text): the final assistant text out of
//! the decoded stdout lines of a non-streamed run.
use vstd::prelude::*;

use crate::codex_exec::{CodexExecEvent, CodexThreadItem};
use crate::run_log::{event_item, LogLine};
use crate::text::{owned, trim_str, trimmed};

verus! {

/// Scanning lines from the start: the error of the first failed turn or stream
/// error, or else the text of the last agent message seen (`last`, updated).
pub open spec fn scan_final(last: Seq<char>, lines: Seq<LogLine>) -> Result<Seq<char>, Seq<char>>
    decreases lines.len(),
{
    if lines.len() == 0 {
        Ok(last)
    } else {
        let l = lines[0];
        if trimmed(l.text@).len() == 0 {
            scan_final(last, lines.drop_first())
        } else {
            match l.event {
                Some(CodexExecEvent::TurnFailed { error }) => Err(
                    "Codex turn failed: "@ + error.message@,
                ),
                Some(CodexExecEvent::StreamError { message }) => Err(
                    "Codex stream error: "@ + message@,
                ),
                Some(e) => match event_item(e) {
                    Some(CodexThreadItem::AgentMessage(m)) => scan_final(m.text@, lines.drop_first()),
                    _ => scan_final(last, lines.drop_first()),
                },
                None => scan_final(last, lines.drop_first()),
            }
        }
    }
}

pub open spec fn final_message_spec(lines: Seq<LogLine>) -> Result<Seq<char>, Seq<char>> {
    match scan_final(Seq::empty(), lines) {
        Err(e) => Err(e),
        Ok(t) => if trimmed(t).len() == 0 {
            Err("Empty response from Codex CLI"@)
        } else {
            Ok(t)
        },
    }
}

pub open spec fn result_str_view(r: Result<String, String>) -> Result<Seq<char>, Seq<char>> {
    match r {
        Ok(s) => Ok(s@),
        Err(e) => Err(e@),
    }
}

/// The text of the last agent message, unless a turn failed or the stream
/// reported an error first, or the text is blank.
pub fn extract_final_agent_message(lines: &Vec<LogLine>) -> (r: Result<String, String>)
    ensures
        result_str_view(r) == final_message_spec(lines@),
{
    let mut last = String::new();
    let mut i: usize = 0;
    assert(lines@.subrange(0, lines@.len() as int) =~= lines@);
    while i < lines.len()
        invariant
            i <= lines@.len(),
            scan_final(Seq::empty(), lines@) == scan_final(
                last@,
                lines@.subrange(i as int, lines@.len() as int),
            ),
        decreases lines@.len() - i,
    {
        let line = &lines[i];
        assert(lines@.subrange(i as int, lines@.len() as int).drop_first() =~= lines@.subrange(
            i + 1,
            lines@.len() as int,
        ));
        assert(lines@.subrange(i as int, lines@.len() as int)[0] == lines@[i as int]);
        if trim_str(line.text.as_str()).unicode_len() > 0 {
            match &line.event {
                Some(CodexExecEvent::TurnFailed { error }) => {
                    return Err(owned("Codex turn failed: ").concat(error.message.as_str()));
                },
                Some(CodexExecEvent::StreamError { message }) => {
                    return Err(owned("Codex stream error: ").concat(message.as_str()));
                },
                Some(CodexExecEvent::ItemStarted { item: CodexThreadItem::AgentMessage(m) }) => {
                    last = m.text.clone();
                },
                Some(CodexExecEvent::ItemUpdated { item: CodexThreadItem::AgentMessage(m) }) => {
                    last = m.text.clone();
                },
                Some(CodexExecEvent::ItemCompleted { item: CodexThreadItem::AgentMessage(m) }) => {
                    last = m.text.clone();
                },
                _ => {},
            }
        }
        i = i + 1;
    }
    if trim_str(last.as_str()).unicode_len() == 0 {
        Err(owned("Empty response from Codex CLI"))
    } else {
        Ok(last)
    }
}

} // verus!
