//! Character-level string helpers shared by the argument builder, the item
//! folder and the line assembler.
use vstd::prelude::*;

verus! {

/// The text that `str::to_lowercase` produces.
pub uninterp spec fn lower_of(s: Seq<char>) -> Seq<char>;

/// White space as `char::is_whitespace` defines it: the code points with the
/// Unicode `White_Space` property.
pub open spec fn is_ws(c: char) -> bool {
    let u = c as u32;
    (0x9 <= u <= 0xD) || u == 0x20 || u == 0x85 || u == 0xA0 || u == 0x1680 || (0x2000 <= u
        <= 0x200A) || u == 0x2028 || u == 0x2029 || u == 0x202F || u == 0x205F || u == 0x3000
}

/// The text without its trailing white space (`str::trim_end`).
pub open spec fn trimmed_end(s: Seq<char>) -> Seq<char>
    decreases s.len(),
{
    if s.len() > 0 && is_ws(s.last()) {
        trimmed_end(s.drop_last())
    } else {
        s
    }
}

/// The text without its leading white space (`str::trim_start`).
pub open spec fn trimmed_start(s: Seq<char>) -> Seq<char>
    decreases s.len(),
{
    if s.len() > 0 && is_ws(s[0]) {
        trimmed_start(s.drop_first())
    } else {
        s
    }
}

/// The text without leading and trailing white space (`str::trim`).
pub open spec fn trimmed(s: Seq<char>) -> Seq<char> {
    trimmed_start(trimmed_end(s))
}

fn is_ws_char(c: char) -> (r: bool)
    ensures
        r == is_ws(c),
{
    let u = c as u32;
    (0x9 <= u && u <= 0xD) || u == 0x20 || u == 0x85 || u == 0xA0 || u == 0x1680 || (0x2000
        <= u && u <= 0x200A) || u == 0x2028 || u == 0x2029 || u == 0x202F || u == 0x205F || u
        == 0x3000
}

/// The position after the last character of `s` that is not white space.
fn trim_end_index(sv: &Vec<char>) -> (r: usize)
    ensures
        r <= sv@.len(),
        trimmed_end(sv@) == sv@.subrange(0, r as int),
        r == 0 || !is_ws(sv@[r - 1]),
{
    let mut end = sv.len();
    assert(sv@.subrange(0, end as int) =~= sv@);
    while end > 0 && is_ws_char(sv[end - 1])
        invariant
            end <= sv@.len(),
            trimmed_end(sv@) == trimmed_end(sv@.subrange(0, end as int)),
        decreases end,
    {
        assert(sv@.subrange(0, end as int).drop_last() =~= sv@.subrange(0, end - 1));
        end = end - 1;
    }
    end
}

/// `s` without its trailing white space.
pub fn trim_end_str(s: &str) -> (r: &str)
    ensures
        r@ == trimmed_end(s@),
{
    let sv = chars_of(s);
    let end = trim_end_index(&sv);
    s.substring_char(0, end)
}

/// `s` without leading and trailing white space.
pub fn trim_str(s: &str) -> (r: &str)
    ensures
        r@ == trimmed(s@),
{
    let sv = chars_of(s);
    let end = trim_end_index(&sv);
    let ghost e = sv@.subrange(0, end as int);
    let mut start: usize = 0;
    assert(e.subrange(0, e.len() as int) =~= e);
    while start < end && is_ws_char(sv[start])
        invariant
            start <= end <= sv@.len(),
            e == sv@.subrange(0, end as int),
            trimmed_start(e) == trimmed_start(e.subrange(start as int, end as int)),
        decreases end - start,
    {
        assert(e.subrange(start as int, end as int).drop_first() =~= e.subrange(
            start + 1,
            end as int,
        ));
        start = start + 1;
    }
    assert(sv@.subrange(start as int, end as int) =~= e.subrange(start as int, end as int));
    s.substring_char(start, end)
}

/// Relies on `str::to_lowercase`: the lowercase mapping of every character,
/// a function of the characters alone.
#[verifier::external_body]
pub(crate) fn to_lower(s: &str) -> (r: String)
    ensures
        r@ == lower_of(s@),
{
    s.to_lowercase()
}

/// Whether `t` has `p` as a prefix.
pub open spec fn is_prefix(p: Seq<char>, t: Seq<char>) -> bool {
    p.len() <= t.len() && t.subrange(0, p.len() as int) == p
}

/// Whether `n` occurs in `h` at some position.
pub open spec fn occurs_in(n: Seq<char>, h: Seq<char>) -> bool {
    exists|i: int| 0 <= i && i + n.len() <= h.len() && #[trigger] h.subrange(i, i + n.len()) == n
}

/// The characters of `s`, in one pass.
pub fn chars_of(s: &str) -> (r: Vec<char>)
    ensures
        r@ == s@,
{
    broadcast use vstd::string::group_string_axioms;
    let mut v: Vec<char> = Vec::new();
    for c in it: s.chars()
        invariant
            v@ == it.seq().subrange(0, it.index() as int),
    {
        v.push(c);
    }
    v
}

/// Compares two strings character by character.
pub fn str_eq(a: &str, b: &str) -> (r: bool)
    ensures
        r == (a@ == b@),
{
    let av = chars_of(a);
    let bv = chars_of(b);
    if av.len() != bv.len() {
        return false;
    }
    let n = av.len();
    let mut i: usize = 0;
    while i < n
        invariant
            n == av@.len(),
            n == bv@.len(),
            av@ == a@,
            bv@ == b@,
            i <= n,
            forall|j: int| 0 <= j < i ==> av@[j] == bv@[j],
        decreases n - i,
    {
        if av[i] != bv[i] {
            return false;
        }
        i = i + 1;
    }
    assert(av@ =~= bv@);
    true
}

/// Whether `n` occurs in `h` starting at position `at`.
fn occurs_at(h: &Vec<char>, n: &Vec<char>, at: usize) -> (r: bool)
    requires
        at + n@.len() <= h@.len(),
    ensures
        r == (h@.subrange(at as int, at + n@.len()) == n@),
{
    let len = n.len();
    let hl = h.len();
    let mut i: usize = 0;
    while i < len
        invariant
            len == n@.len(),
            hl == h@.len(),
            at + len <= h@.len(),
            i <= len,
            forall|j: int| 0 <= j < i ==> h@[at + j] == n@[j],
        decreases len - i,
    {
        if h[at + i] != n[i] {
            assert(h@.subrange(at as int, at + len)[i as int] != n@[i as int]);
            return false;
        }
        i = i + 1;
    }
    assert(h@.subrange(at as int, at + len) =~= n@);
    true
}

/// Whether the characters of `p` start the characters of `t`.
pub fn starts_with(t: &str, p: &str) -> (r: bool)
    ensures
        r == is_prefix(p@, t@),
{
    let tv = chars_of(t);
    let pv = chars_of(p);
    if pv.len() > tv.len() {
        return false;
    }
    occurs_at(&tv, &pv, 0)
}

/// Whether `n` occurs anywhere in `h`.
pub fn contains(h: &str, n: &str) -> (r: bool)
    ensures
        r == occurs_in(n@, h@),
{
    let hv = chars_of(h);
    let nv = chars_of(n);
    let hl = hv.len();
    let nl = nv.len();
    if nl > hl {
        return false;
    }
    if nl == 0 {
        assert(h@.subrange(0, 0 + n@.len() as int) =~= n@);
        return true;
    }
    let mut i: usize = 0;
    while i <= hl - nl
        invariant
            hl == h@.len(),
            nl == n@.len(),
            hv@ == h@,
            nv@ == n@,
            0 < nl <= hl,
            i <= hl - nl + 1,
            forall|j: int| 0 <= j < i ==> #[trigger] h@.subrange(j, j + nl) != n@,
        decreases hl + 1 - i,
    {
        if occurs_at(&hv, &nv, i) {
            return true;
        }
        i = i + 1;
    }
    assert forall|j: int| 0 <= j && j + n@.len() <= h@.len() implies #[trigger] h@.subrange(
        j,
        j + n@.len(),
    ) != n@ by {
        assert(j < i);
    }
    false
}

/// A fresh owned copy of `s`.
pub fn owned(s: &str) -> (r: String)
    ensures
        r@ == s@,
{
    String::from_str(s)
}

/// The texts held by a vector of strings.
pub open spec fn strs(v: Seq<String>) -> Seq<Seq<char>> {
    v.map_values(|s: String| s@)
}

/// Appends an owned copy of `s`.
pub fn push_str(args: &mut Vec<String>, s: &str)
    ensures
        strs(final(args)@) == strs(old(args)@).push(s@),
{
    args.push(String::from_str(s));
    assert(strs(args@) =~= strs(old(args)@).push(s@));
}

/// Appends `s` itself.
pub fn push_string(args: &mut Vec<String>, s: String)
    ensures
        strs(final(args)@) == strs(old(args)@).push(s@),
{
    let ghost v = s@;
    args.push(s);
    assert(strs(args@) =~= strs(old(args)@).push(v));
}

} // verus!
