//! Association lists keyed by text: a vector of (key, value) pairs read as a
//! map in which a later pair overrides an earlier one with the same key.
use vstd::prelude::*;

use crate::text::str_eq;

verus! {

/// The map that a list of pairs stands for, values read through `f`.
pub open spec fn assoc<V, W>(s: Seq<(String, V)>, f: spec_fn(V) -> W) -> Map<Seq<char>, W>
    decreases s.len(),
{
    if s.len() == 0 {
        Map::empty()
    } else {
        assoc(s.drop_last(), f).insert(s.last().0@, f(s.last().1))
    }
}

/// The position of the last pair with key `k`.
pub fn find_key<V>(s: &Vec<(String, V)>, k: &str) -> (r: Option<usize>)
    ensures
        match r {
            Some(i) => i < s@.len() && s@[i as int].0@ == k@ && forall|j: int|
                i < j < s@.len() ==> #[trigger] s@[j].0@ != k@,
            None => forall|j: int| 0 <= j < s@.len() ==> #[trigger] s@[j].0@ != k@,
        },
{
    let mut i: usize = s.len();
    while i > 0
        invariant
            i <= s@.len(),
            forall|j: int| i <= j < s@.len() ==> #[trigger] s@[j].0@ != k@,
        decreases i,
    {
        if str_eq(s[i - 1].0.as_str(), k) {
            return Some(i - 1);
        }
        i = i - 1;
    }
    None
}

pub proof fn lemma_assoc_found<V, W>(s: Seq<(String, V)>, f: spec_fn(V) -> W, i: int, k: Seq<char>)
    requires
        0 <= i < s.len(),
        s[i].0@ == k,
        forall|j: int| i < j < s.len() ==> #[trigger] s[j].0@ != k,
    ensures
        assoc(s, f).contains_key(k),
        assoc(s, f)[k] == f(s[i].1),
    decreases s.len(),
{
    if i < s.len() - 1 {
        let t = s.drop_last();
        assert forall|j: int| i < j < t.len() implies #[trigger] t[j].0@ != k by {
            assert(t[j] == s[j]);
        }
        lemma_assoc_found(t, f, i, k);
        assert(s.last().0@ != k);
    }
}

pub proof fn lemma_assoc_absent<V, W>(s: Seq<(String, V)>, f: spec_fn(V) -> W, k: Seq<char>)
    requires
        forall|j: int| 0 <= j < s.len() ==> #[trigger] s[j].0@ != k,
    ensures
        !assoc(s, f).contains_key(k),
    decreases s.len(),
{
    if s.len() > 0 {
        let t = s.drop_last();
        assert forall|j: int| 0 <= j < t.len() implies #[trigger] t[j].0@ != k by {
            assert(t[j] == s[j]);
        }
        lemma_assoc_absent(t, f, k);
        assert(s[s.len() - 1].0@ != k);
    }
}

pub proof fn lemma_assoc_update<V, W>(
    s: Seq<(String, V)>,
    f: spec_fn(V) -> W,
    i: int,
    p: (String, V),
)
    requires
        0 <= i < s.len(),
        s[i].0@ == p.0@,
        forall|j: int| i < j < s.len() ==> #[trigger] s[j].0@ != p.0@,
    ensures
        assoc(s.update(i, p), f) == assoc(s, f).insert(p.0@, f(p.1)),
    decreases s.len(),
{
    let u = s.update(i, p);
    if i == s.len() - 1 {
        assert(u.drop_last() =~= s.drop_last());
        assert(assoc(u, f) =~= assoc(s, f).insert(p.0@, f(p.1)));
    } else {
        let t = s.drop_last();
        assert forall|j: int| i < j < t.len() implies #[trigger] t[j].0@ != p.0@ by {
            assert(t[j] == s[j]);
        }
        lemma_assoc_update(t, f, i, p);
        assert(u.drop_last() =~= t.update(i, p));
        assert(s.last().0@ != p.0@);
        assert(assoc(u, f) =~= assoc(s, f).insert(p.0@, f(p.1)));
    }
}

/// Binds `k` to `v`: the last pair with key `k` takes the value, or a pair is added.
pub(crate) fn assign<V, W>(s: &mut Vec<(String, V)>, k: &str, v: V, Ghost(f): Ghost<spec_fn(V) -> W>)
    ensures
        assoc(final(s)@, f) == assoc(old(s)@, f).insert(k@, f(v)),
{
    let ghost fv = f(v);
    match find_key(s, k) {
        Some(i) => {
            let p = (String::from_str(k), v);
            proof {
                lemma_assoc_update(old(s)@, f, i as int, p);
            }
            s.set(i, p);
        },
        None => {
            s.push((String::from_str(k), v));
            assert(s@.drop_last() =~= old(s)@);
        },
    }
}

} // verus!
