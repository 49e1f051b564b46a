//! The process registry: which session has a live CLI process, by PID.
//! Cancelling a run removes its entry; supervisors see it gone at their next
//! poll.
use vstd::prelude::*;

use crate::assoc::{assign, assoc, find_key, lemma_assoc_absent, lemma_assoc_found};
use crate::text::str_eq;

verus! {

pub open spec fn pid_val() -> spec_fn(u32) -> u32 {
    |p: u32| p
}

/// Sessions and their PIDs.
pub struct ProcessRegistry {
    pub entries: Vec<(String, u32)>,
}

impl View for ProcessRegistry {
    type V = Map<Seq<char>, u32>;

    open spec fn view(&self) -> Map<Seq<char>, u32> {
        assoc(self.entries@, pid_val())
    }
}

/// The pairs whose key is not `k`.
pub open spec fn without_key(s: Seq<(String, u32)>, k: Seq<char>) -> Seq<(String, u32)>
    decreases s.len(),
{
    if s.len() == 0 {
        s
    } else {
        let rest = without_key(s.drop_last(), k);
        if s.last().0@ == k {
            rest
        } else {
            rest.push(s.last())
        }
    }
}

proof fn lemma_without_key(s: Seq<(String, u32)>, k: Seq<char>)
    ensures
        assoc(without_key(s, k), pid_val()) == assoc(s, pid_val()).remove(k),
    decreases s.len(),
{
    if s.len() == 0 {
        assert(assoc(s, pid_val()).remove(k) =~= Map::empty());
    } else {
        lemma_without_key(s.drop_last(), k);
        let rest = without_key(s.drop_last(), k);
        if s.last().0@ == k {
            assert(assoc(s, pid_val()).remove(k) =~= assoc(s.drop_last(), pid_val()).remove(k));
        } else {
            assert(rest.push(s.last()).drop_last() =~= rest);
            assert(assoc(rest.push(s.last()), pid_val()) =~= assoc(s, pid_val()).remove(k));
        }
    }
}

impl ProcessRegistry {
    pub fn new() -> (r: ProcessRegistry)
        ensures
            r@ == Map::<Seq<char>, u32>::empty(),
    {
        let r = ProcessRegistry { entries: Vec::new() };
        assert(r@ =~= Map::empty());
        r
    }

    /// Records the process of a session, replacing an earlier one.
    pub fn register(&mut self, session_id: &str, pid: u32)
        ensures
            final(self)@ == old(self)@.insert(session_id@, pid),
    {
        assign::<u32, u32>(&mut self.entries, session_id, pid, Ghost(pid_val()));
    }

    /// Removes the session's entry and returns its PID, if it had one.
    pub fn unregister(&mut self, session_id: &str) -> (r: Option<u32>)
        ensures
            final(self)@ == old(self)@.remove(session_id@),
            r == (if old(self)@.contains_key(session_id@) {
                Some(old(self)@[session_id@])
            } else {
                None
            }),
    {
        let found = self.pid_of(session_id);
        let mut kept: Vec<(String, u32)> = Vec::new();
        let mut i: usize = 0;
        let ghost s = self.entries@;
        assert(without_key(s.subrange(0, 0), session_id@) =~= kept@);
        while i < self.entries.len()
            invariant
                self.entries@ == s,
                i <= s.len(),
                kept@ == without_key(s.subrange(0, i as int), session_id@),
            decreases s.len() - i,
        {
            assert(s.subrange(0, i + 1).drop_last() =~= s.subrange(0, i as int));
            if !str_eq(self.entries[i].0.as_str(), session_id) {
                kept.push((self.entries[i].0.clone(), self.entries[i].1));
            }
            i = i + 1;
        }
        assert(s.subrange(0, s.len() as int) =~= s);
        proof {
            lemma_without_key(s, session_id@);
        }
        self.entries = kept;
        found
    }

    /// The PID registered for a session.
    pub fn pid_of(&self, session_id: &str) -> (r: Option<u32>)
        ensures
            r == (if self@.contains_key(session_id@) {
                Some(self@[session_id@])
            } else {
                None
            }),
    {
        match find_key(&self.entries, session_id) {
            Some(i) => {
                proof {
                    lemma_assoc_found(self.entries@, pid_val(), i as int, session_id@);
                }
                Some(self.entries[i].1)
            },
            None => {
                proof {
                    lemma_assoc_absent(self.entries@, pid_val(), session_id@);
                }
                None
            },
        }
    }

    /// Whether the session still has a registered process.
    pub fn is_process_running(&self, session_id: &str) -> (r: bool)
        ensures
            r == self@.contains_key(session_id@),
    {
        self.pid_of(session_id).is_some()
    }
}

} // verus!
