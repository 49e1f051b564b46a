//! Status and release records of the installed CLI, and the rules that pick a
//! version, a release tag and a download asset.
use vstd::prelude::*;

use crate::text::{is_prefix, occurs_in, owned, starts_with, str_eq};
use crate::types::opt_view;

verus! {

/// Whether the CLI is installed, its version and its path.
#[derive(Debug, Clone)]
pub struct CodexCliStatus {
    pub installed: bool,
    pub version: Option<String>,
    pub path: Option<String>,
}

/// A release of the CLI as the version picker shows it.
#[derive(Debug, Clone)]
pub struct CodexReleaseInfo {
    pub version: String,
    pub tag_name: String,
    pub published_at: String,
    pub prerelease: bool,
}

/// Progress of an installation.
#[derive(Debug, Clone)]
pub struct CodexInstallProgress {
    pub stage: String,
    pub message: String,
    pub percent: u8,
}

/// Whether the CLI is authenticated.
#[derive(Debug, Clone)]
pub struct CodexAuthStatus {
    pub authenticated: bool,
    pub error: Option<String>,
}

/// The CLI binary cannot be replaced while sessions run.
pub fn install_guard(running_sessions: usize) -> (r: Result<(), String>)
    ensures
        r is Ok <==> running_sessions == 0,
        r is Err ==> r->Err_0@ == "Cannot install Codex CLI while "@ + crate::item_folder::decimal(
            running_sessions as nat,
        ) + (if running_sessions == 1 {
            " session is"@
        } else {
            " sessions are"@
        }) + " running. Please stop all active sessions first."@,
{
    if running_sessions == 0 {
        return Ok(());
    }
    let n = crate::item_folder::decimal_string(running_sessions);
    let verb = if running_sessions == 1 {
        " session is"
    } else {
        " sessions are"
    };
    Err(
        owned("Cannot install Codex CLI while ").concat(n.as_str()).concat(verb).concat(
            " running. Please stop all active sessions first.",
        ),
    )
}

/// The authentication status that `login status` reports: authenticated on
/// success, else its stderr (trimmed) or "Not authenticated" when that is blank.
pub fn auth_status(success: bool, stderr: &str) -> (r: CodexAuthStatus)
    ensures
        r.authenticated == success,
        success ==> r.error is None,
        !success ==> opt_view(r.error) == Some(
            if crate::text::trimmed(stderr@).len() == 0 {
                "Not authenticated"@
            } else {
                crate::text::trimmed(stderr@)
            },
        ),
{
    if success {
        return CodexAuthStatus { authenticated: true, error: None };
    }
    let t = crate::text::trim_str(stderr);
    let error = if t.unicode_len() == 0 {
        owned("Not authenticated")
    } else {
        owned(t)
    };
    CodexAuthStatus { authenticated: false, error: Some(error) }
}

/// A release as the releases listing reports it.
#[derive(Debug, Clone)]
pub struct ReleaseCandidate {
    pub name: Option<String>,
    pub tag_name: String,
    pub published_at: String,
    pub prerelease: bool,
    pub has_assets: bool,
}

pub struct InfoV {
    pub version: Seq<char>,
    pub tag_name: Seq<char>,
    pub published_at: Seq<char>,
    pub prerelease: bool,
}

impl View for CodexReleaseInfo {
    type V = InfoV;

    open spec fn view(&self) -> InfoV {
        InfoV {
            version: self.version@,
            tag_name: self.tag_name@,
            published_at: self.published_at@,
            prerelease: self.prerelease,
        }
    }
}

pub open spec fn infos_view(v: Seq<CodexReleaseInfo>) -> Seq<InfoV> {
    v.map_values(|i: CodexReleaseInfo| i@)
}

/// Lexicographic order of texts by character.
pub open spec fn text_lt(a: Seq<char>, b: Seq<char>) -> bool
    decreases a.len(),
{
    if a.len() == 0 {
        b.len() > 0
    } else if b.len() == 0 {
        false
    } else if a[0] != b[0] {
        (a[0] as u32) < (b[0] as u32)
    } else {
        text_lt(a.drop_first(), b.drop_first())
    }
}

fn text_less(a: &str, b: &str) -> (r: bool)
    ensures
        r == text_lt(a@, b@),
{
    let av = crate::text::chars_of(a);
    let bv = crate::text::chars_of(b);
    let mut i: usize = 0;
    assert(a@.subrange(0, a@.len() as int) =~= a@);
    assert(b@.subrange(0, b@.len() as int) =~= b@);
    while i < av.len() && i < bv.len() && av[i] == bv[i]
        invariant
            av@ == a@,
            bv@ == b@,
            i <= av@.len(),
            i <= bv@.len(),
            text_lt(a@, b@) == text_lt(a@.subrange(i as int, a@.len() as int), b@.subrange(
                i as int,
                b@.len() as int,
            )),
        decreases av@.len() - i,
    {
        assert(a@.subrange(i as int, a@.len() as int).drop_first() =~= a@.subrange(
            i + 1,
            a@.len() as int,
        ));
        assert(b@.subrange(i as int, b@.len() as int).drop_first() =~= b@.subrange(
            i + 1,
            b@.len() as int,
        ));
        i = i + 1;
    }
    if i == av.len() {
        i < bv.len()
    } else if i == bv.len() {
        false
    } else {
        (av[i] as u32) < (bv[i] as u32)
    }
}

/// Newest first: `x` goes before the first release published before it, so
/// releases published at the same time keep their order.
pub open spec fn insert_newest_first(s: Seq<InfoV>, x: InfoV) -> Seq<InfoV>
    decreases s.len(),
{
    if s.len() == 0 {
        seq![x]
    } else if text_lt(s[0].published_at, x.published_at) {
        seq![x] + s
    } else {
        seq![s[0]] + insert_newest_first(s.drop_first(), x)
    }
}

pub open spec fn sort_newest_first(s: Seq<InfoV>) -> Seq<InfoV>
    decreases s.len(),
{
    if s.len() == 0 {
        s
    } else {
        insert_newest_first(sort_newest_first(s.drop_last()), s.last())
    }
}

/// The picker's entries: releases with assets, as (version, tag, date,
/// prerelease), split into stable releases and prereleases.
pub open spec fn candidate_info(c: ReleaseCandidate) -> InfoV {
    InfoV {
        version: release_version_spec(opt_view(c.name), c.tag_name@),
        tag_name: c.tag_name@,
        published_at: c.published_at@,
        prerelease: c.prerelease,
    }
}

pub open spec fn listed(cs: Seq<ReleaseCandidate>, pre: bool) -> Seq<InfoV>
    decreases cs.len(),
{
    if cs.len() == 0 {
        Seq::empty()
    } else {
        let rest = listed(cs.drop_last(), pre);
        let c = cs.last();
        if c.has_assets && c.prerelease == pre {
            rest.push(candidate_info(c))
        } else {
            rest
        }
    }
}

/// Entries shown by the version picker.
pub const PICKER_SLOTS: usize = 5;

/// Up to five stable releases, newest first, then prereleases, newest first,
/// in the slots left.
pub open spec fn select_spec(cs: Seq<ReleaseCandidate>) -> Seq<InfoV> {
    let stable = sort_newest_first(listed(cs, false));
    let pre = sort_newest_first(listed(cs, true));
    let top = if stable.len() > PICKER_SLOTS {
        stable.subrange(0, PICKER_SLOTS as int)
    } else {
        stable
    };
    let left = (PICKER_SLOTS - top.len()) as int;
    top + if pre.len() > left {
        pre.subrange(0, left)
    } else {
        pre
    }
}

/// Releases in order of publication, newest first.
pub open spec fn newest_first(s: Seq<InfoV>) -> bool {
    forall|i: int, j: int|
        0 <= i < j < s.len() ==> !text_lt(#[trigger] s[i].published_at, #[trigger] s[j].published_at)
}

proof fn lemma_text_lt_irreflexive(a: Seq<char>)
    ensures
        !text_lt(a, a),
    decreases a.len(),
{
    if a.len() > 0 {
        lemma_text_lt_irreflexive(a.drop_first());
    }
}

proof fn lemma_text_lt_transitive(a: Seq<char>, b: Seq<char>, c: Seq<char>)
    requires
        text_lt(a, b),
        text_lt(b, c),
    ensures
        text_lt(a, c),
    decreases a.len(),
{
    if a.len() > 0 && b.len() > 0 && c.len() > 0 && a[0] == b[0] && b[0] == c[0] {
        lemma_text_lt_transitive(a.drop_first(), b.drop_first(), c.drop_first());
    }
}

proof fn lemma_text_lt_total(a: Seq<char>, b: Seq<char>)
    ensures
        text_lt(a, b) || a == b || text_lt(b, a),
    decreases a.len(),
{
    if a.len() > 0 && b.len() > 0 {
        if a[0] == b[0] {
            lemma_text_lt_total(a.drop_first(), b.drop_first());
            if a.drop_first() == b.drop_first() {
                assert(a =~= seq![a[0]] + a.drop_first());
                assert(b =~= seq![b[0]] + b.drop_first());
            }
        } else {
            vstd::utf8::char_u32_cast(a[0], a[0] as u32);
            vstd::utf8::char_u32_cast(b[0], b[0] as u32);
            assert((a[0] as u32) != (b[0] as u32));
        }
    } else if a.len() == 0 && b.len() == 0 {
        assert(a =~= b);
    }
}

/// `b` is not newer than `a` and `c` is not newer than `b`: `c` is not newer than `a`.
proof fn lemma_not_newer_chain(a: Seq<char>, b: Seq<char>, c: Seq<char>)
    requires
        !text_lt(a, b),
        !text_lt(b, c),
    ensures
        !text_lt(a, c),
{
    if text_lt(a, c) {
        lemma_text_lt_total(c, b);
        if text_lt(c, b) {
            lemma_text_lt_transitive(a, c, b);
        }
    }
}

proof fn lemma_insert_bounded(s: Seq<InfoV>, x: InfoV, y: Seq<char>)
    requires
        forall|j: int| 0 <= j < s.len() ==> !text_lt(y, #[trigger] s[j].published_at),
        !text_lt(y, x.published_at),
    ensures
        forall|k: int|
            0 <= k < insert_newest_first(s, x).len() ==> !text_lt(
                y,
                #[trigger] insert_newest_first(s, x)[k].published_at,
            ),
    decreases s.len(),
{
    if s.len() > 0 && !text_lt(s[0].published_at, x.published_at) {
        let t = s.drop_first();
        assert forall|j: int| 0 <= j < t.len() implies !text_lt(y, #[trigger] t[j].published_at) by {
            assert(t[j] == s[j + 1]);
        }
        lemma_insert_bounded(t, x, y);
        let r = insert_newest_first(s, x);
        assert forall|k: int| 0 <= k < r.len() implies !text_lt(y, #[trigger] r[k].published_at) by {
            if k > 0 {
                assert(r[k] == insert_newest_first(t, x)[k - 1]);
            }
        }
    }
}

proof fn lemma_insert_sorted(s: Seq<InfoV>, x: InfoV)
    requires
        newest_first(s),
    ensures
        newest_first(insert_newest_first(s, x)),
        insert_newest_first(s, x).len() == s.len() + 1,
    decreases s.len(),
{
    if s.len() == 0 {
    } else if text_lt(s[0].published_at, x.published_at) {
        let r = seq![x] + s;
        assert forall|i: int, j: int| 0 <= i < j < r.len() implies !text_lt(
            #[trigger] r[i].published_at,
            #[trigger] r[j].published_at,
        ) by {
            if i == 0 {
                assert(r[j] == s[j - 1]);
                if text_lt(x.published_at, s[j - 1].published_at) {
                    lemma_text_lt_transitive(s[0].published_at, x.published_at, s[j - 1].published_at);
                    if j - 1 == 0 {
                        lemma_text_lt_irreflexive(s[0].published_at);
                    }
                }
            } else {
                assert(r[i] == s[i - 1] && r[j] == s[j - 1]);
            }
        }
    } else {
        let t = s.drop_first();
        assert(newest_first(t)) by {
            assert forall|i: int, j: int| 0 <= i < j < t.len() implies !text_lt(
                #[trigger] t[i].published_at,
                #[trigger] t[j].published_at,
            ) by {
                assert(t[i] == s[i + 1] && t[j] == s[j + 1]);
            }
        }
        lemma_insert_sorted(t, x);
        assert forall|j: int| 0 <= j < t.len() implies !text_lt(
            s[0].published_at,
            #[trigger] t[j].published_at,
        ) by {
            assert(t[j] == s[j + 1]);
        }
        lemma_insert_bounded(t, x, s[0].published_at);
        let it = insert_newest_first(t, x);
        let r = seq![s[0]] + it;
        assert forall|i: int, j: int| 0 <= i < j < r.len() implies !text_lt(
            #[trigger] r[i].published_at,
            #[trigger] r[j].published_at,
        ) by {
            if i == 0 {
                assert(r[j] == it[j - 1]);
            } else {
                assert(r[i] == it[i - 1] && r[j] == it[j - 1]);
            }
        }
    }
}

proof fn lemma_sort_sorted(s: Seq<InfoV>)
    ensures
        newest_first(sort_newest_first(s)),
        sort_newest_first(s).len() == s.len(),
    decreases s.len(),
{
    if s.len() > 0 {
        lemma_sort_sorted(s.drop_last());
        lemma_insert_sorted(sort_newest_first(s.drop_last()), s.last());
    }
}

/// The picker lists at most five entries: stable releases first, newest first,
/// then prereleases, newest first; prereleases appear only when fewer than
/// five stable releases exist.
pub proof fn lemma_picker_order(cs: Seq<ReleaseCandidate>)
    ensures
        ({
            let r = select_spec(cs);
            let stable = sort_newest_first(listed(cs, false));
            let n = if stable.len() > PICKER_SLOTS {
                PICKER_SLOTS as int
            } else {
                stable.len() as int
            };
            &&& r.len() <= PICKER_SLOTS
            &&& newest_first(r.subrange(0, n))
            &&& newest_first(r.subrange(n, r.len() as int))
            &&& (r.len() > n ==> stable.len() < PICKER_SLOTS)
        }),
{
    let stable = sort_newest_first(listed(cs, false));
    let pre = sort_newest_first(listed(cs, true));
    lemma_sort_sorted(listed(cs, false));
    lemma_sort_sorted(listed(cs, true));
    let r = select_spec(cs);
    let top = if stable.len() > PICKER_SLOTS {
        stable.subrange(0, PICKER_SLOTS as int)
    } else {
        stable
    };
    let left = (PICKER_SLOTS - top.len()) as int;
    let rest = if pre.len() > left {
        pre.subrange(0, left)
    } else {
        pre
    };
    assert(r == top + rest);
    let n = top.len() as int;
    assert(r.subrange(0, n) =~= top);
    assert(r.subrange(n, r.len() as int) =~= rest);
    assert forall|i: int, j: int| 0 <= i < j < top.len() implies !text_lt(
        #[trigger] top[i].published_at,
        #[trigger] top[j].published_at,
    ) by {
        assert(top[i] == stable[i] && top[j] == stable[j]);
    }
    assert forall|i: int, j: int| 0 <= i < j < rest.len() implies !text_lt(
        #[trigger] rest[i].published_at,
        #[trigger] rest[j].published_at,
    ) by {
        assert(rest[i] == pre[i] && rest[j] == pre[j]);
    }
}

proof fn lemma_insert_at(s: Seq<InfoV>, x: InfoV, i: int)
    requires
        0 <= i <= s.len(),
        forall|j: int| 0 <= j < i ==> !text_lt(#[trigger] s[j].published_at, x.published_at),
        i == s.len() || text_lt(s[i].published_at, x.published_at),
    ensures
        insert_newest_first(s, x) == s.insert(i, x),
    decreases s.len(),
{
    if s.len() == 0 {
        assert(s.insert(i, x) =~= seq![x]);
    } else if i == 0 {
        assert(s.insert(0, x) =~= seq![x] + s);
    } else {
        let t = s.drop_first();
        assert forall|j: int| 0 <= j < i - 1 implies !text_lt(#[trigger] t[j].published_at, x.published_at) by {
            assert(t[j] == s[j + 1]);
        }
        lemma_insert_at(t, x, i - 1);
        assert(!text_lt(s[0].published_at, x.published_at));
        assert(s.insert(i, x) =~= seq![s[0]] + t.insert(i - 1, x));
    }
}

fn insert_release(v: &mut Vec<CodexReleaseInfo>, x: CodexReleaseInfo)
    ensures
        infos_view(final(v)@) == insert_newest_first(infos_view(old(v)@), x@),
{
    let ghost xv = x@;
    let mut i: usize = 0;
    while i < v.len() && !text_less(v[i].published_at.as_str(), x.published_at.as_str())
        invariant
            i <= v@.len(),
            forall|j: int| 0 <= j < i ==> !text_lt(#[trigger] v@[j].published_at@, x.published_at@),
        decreases v@.len() - i,
    {
        i = i + 1;
    }
    let ghost s = infos_view(v@);
    proof {
        assert forall|j: int| 0 <= j < i implies !text_lt(#[trigger] s[j].published_at, xv.published_at) by {
            assert(s[j] == v@[j]@);
        }
        lemma_insert_at(s, xv, i as int);
    }
    v.insert(i, x);
    assert(infos_view(v@) =~= s.insert(i as int, xv));
}

fn release_info(c: &ReleaseCandidate) -> (r: CodexReleaseInfo)
    ensures
        r@ == candidate_info(*c),
{
    let name = match &c.name {
        Some(n) => Some(n.as_str()),
        None => None,
    };
    CodexReleaseInfo {
        version: release_version(name, c.tag_name.as_str()),
        tag_name: c.tag_name.clone(),
        published_at: c.published_at.clone(),
        prerelease: c.prerelease,
    }
}

/// The releases the version picker offers.
pub fn select_versions(candidates: Vec<ReleaseCandidate>) -> (r: Vec<CodexReleaseInfo>)
    ensures
        infos_view(r@) == select_spec(candidates@),
{
    let mut stable: Vec<CodexReleaseInfo> = Vec::new();
    let mut pre: Vec<CodexReleaseInfo> = Vec::new();
    let mut k: usize = 0;
    assert(infos_view(stable@) =~= Seq::empty());
    assert(infos_view(pre@) =~= Seq::empty());
    assert(candidates@.subrange(0, 0) =~= Seq::<ReleaseCandidate>::empty());
    while k < candidates.len()
        invariant
            k <= candidates@.len(),
            infos_view(stable@) == sort_newest_first(listed(candidates@.subrange(0, k as int), false)),
            infos_view(pre@) == sort_newest_first(listed(candidates@.subrange(0, k as int), true)),
        decreases candidates@.len() - k,
    {
        let c = &candidates[k];
        let ghost sub = candidates@.subrange(0, k + 1);
        assert(sub.drop_last() =~= candidates@.subrange(0, k as int));
        assert(sub.last() == candidates@[k as int]);
        if c.has_assets {
            let info = release_info(c);
            if c.prerelease {
                insert_release(&mut pre, info);
            } else {
                insert_release(&mut stable, info);
            }
        }
        proof {
            let l0 = listed(candidates@.subrange(0, k as int), false);
            let l1 = listed(candidates@.subrange(0, k as int), true);
            if c.has_assets && !c.prerelease {
                assert(listed(sub, false) == l0.push(candidate_info(*c)));
                assert(l0.push(candidate_info(*c)).drop_last() =~= l0);
            }
            if c.has_assets && c.prerelease {
                assert(listed(sub, true) == l1.push(candidate_info(*c)));
                assert(l1.push(candidate_info(*c)).drop_last() =~= l1);
            }
        }
        k = k + 1;
    }
    assert(candidates@.subrange(0, candidates@.len() as int) =~= candidates@);
    let ghost sv = infos_view(stable@);
    let ghost pv = infos_view(pre@);
    stable.truncate(PICKER_SLOTS);
    let ghost top = if sv.len() > PICKER_SLOTS {
        sv.subrange(0, PICKER_SLOTS as int)
    } else {
        sv
    };
    assert(infos_view(stable@) =~= top);
    let left = PICKER_SLOTS - stable.len();
    pre.truncate(left);
    let ghost rest = if pv.len() > left {
        pv.subrange(0, left as int)
    } else {
        pv
    };
    assert(infos_view(pre@) =~= rest);
    let ghost a = stable@;
    let ghost b = pre@;
    stable.append(&mut pre);
    assert(infos_view(stable@) =~= infos_view(a) + infos_view(b));
    stable
}

/// The text of capture group 1 of the first match of `pattern` in `s`, if the
/// pattern compiles and matches.
pub uninterp spec fn first_group(pattern: Seq<char>, s: Seq<char>) -> Option<Seq<char>>;

/// Relies on `regex::Regex::new` and `Regex::captures` with `Captures::get(1)`:
/// the text of group 1 of the leftmost match, a substring of `s`; none when the
/// pattern does not compile, nothing matches, or the group does not take part.
#[verifier::external_body]
fn regex_first_group(pattern: &str, s: &str) -> (r: Option<String>)
    ensures
        opt_view(r) == first_group(pattern@, s@),
        r is Some ==> occurs_in(r->Some_0@, s@),
{
    let re = regex::Regex::new(pattern).ok()?;
    re.captures(s).and_then(|c| c.get(1).map(|m| m.as_str().to_string()))
}

/// A semver-like version: digits.digits.digits with an optional pre-release.
pub open spec fn version_pattern() -> Seq<char> {
    "(\\d+\\.\\d+\\.\\d+(?:-[0-9A-Za-z.-]+)?)"@
}

/// The first semver-like version in `s` (as in `0.92.0`, `v0.92.0`, `codex 0.92.0`).
pub fn extract_version_number(s: &str) -> (r: Option<String>)
    ensures
        opt_view(r) == first_group(version_pattern(), s@),
{
    regex_first_group("(\\d+\\.\\d+\\.\\d+(?:-[0-9A-Za-z.-]+)?)", s)
}

pub open spec fn tag_prefix() -> Seq<char> {
    "rust-v"@
}

/// `s` without prefix `p`, if `s` starts with it.
pub open spec fn strip_prefix_spec(s: Seq<char>, p: Seq<char>) -> Option<Seq<char>> {
    if is_prefix(p, s) {
        Some(s.subrange(p.len() as int, s.len() as int))
    } else {
        None
    }
}

fn strip_prefix(s: &str, p: &str) -> (r: Option<String>)
    ensures
        opt_view(r) == strip_prefix_spec(s@, p@),
{
    if starts_with(s, p) {
        let n = s.unicode_len();
        Some(owned(s.substring_char(p.unicode_len(), n)))
    } else {
        None
    }
}

/// The version of a release: from its name, else its tag without `rust-v`,
/// else the tag itself.
pub open spec fn release_version_spec(name: Option<Seq<char>>, tag: Seq<char>) -> Seq<char> {
    let from_name = match name {
        Some(n) => first_group(version_pattern(), n),
        None => None,
    };
    match from_name {
        Some(v) => v,
        None => match strip_prefix_spec(tag, tag_prefix()) {
            Some(v) => v,
            None => tag,
        },
    }
}

pub fn release_version(name: Option<&str>, tag_name: &str) -> (r: String)
    ensures
        r@ == release_version_spec(crate::mode_policy::opt_str_view(name), tag_name@),
{
    let from_name = match name {
        Some(n) => extract_version_number(n),
        None => None,
    };
    match from_name {
        Some(v) => v,
        None => match strip_prefix(tag_name, "rust-v") {
            Some(v) => v,
            None => owned(tag_name),
        },
    }
}

/// The release tag of a version: `rust-v<version>` unless it already is one.
pub fn install_tag(version: &str) -> (r: String)
    ensures
        r@ == if is_prefix(tag_prefix(), version@) {
            version@
        } else {
            tag_prefix() + version@
        },
{
    if starts_with(version, "rust-v") {
        owned(version)
    } else {
        owned("rust-v").concat(version)
    }
}

/// The release asset for an operating system and architecture (as Rust names
/// them), and the file name of the binary inside it.
pub open spec fn asset_spec(os: Seq<char>, arch: Seq<char>) -> Option<(Seq<char>, Seq<char>)> {
    if os == "macos"@ && arch == "aarch64"@ {
        Some(("codex-aarch64-apple-darwin.tar.gz"@, "codex-aarch64-apple-darwin"@))
    } else if os == "macos"@ && arch == "x86_64"@ {
        Some(("codex-x86_64-apple-darwin.tar.gz"@, "codex-x86_64-apple-darwin"@))
    } else if os == "linux"@ && arch == "x86_64"@ {
        Some(("codex-x86_64-unknown-linux-gnu.tar.gz"@, "codex-x86_64-unknown-linux-gnu"@))
    } else if os == "linux"@ && arch == "aarch64"@ {
        Some(("codex-aarch64-unknown-linux-gnu.tar.gz"@, "codex-aarch64-unknown-linux-gnu"@))
    } else if os == "windows"@ && arch == "x86_64"@ {
        Some(("codex-x86_64-pc-windows-msvc.exe.tar.gz"@, "codex-x86_64-pc-windows-msvc.exe"@))
    } else if os == "windows"@ && arch == "aarch64"@ {
        Some(("codex-aarch64-pc-windows-msvc.exe.tar.gz"@, "codex-aarch64-pc-windows-msvc.exe"@))
    } else {
        None
    }
}

pub fn get_codex_asset(os: &str, arch: &str) -> (r: Result<(&'static str, &'static str), String>)
    ensures
        match asset_spec(os@, arch@) {
            Some(p) => r is Ok && (r->Ok_0.0@, r->Ok_0.1@) == p,
            None => r is Err && r->Err_0@ == "Unsupported platform"@,
        },
{
    if str_eq(os, "macos") && str_eq(arch, "aarch64") {
        Ok(("codex-aarch64-apple-darwin.tar.gz", "codex-aarch64-apple-darwin"))
    } else if str_eq(os, "macos") && str_eq(arch, "x86_64") {
        Ok(("codex-x86_64-apple-darwin.tar.gz", "codex-x86_64-apple-darwin"))
    } else if str_eq(os, "linux") && str_eq(arch, "x86_64") {
        Ok(("codex-x86_64-unknown-linux-gnu.tar.gz", "codex-x86_64-unknown-linux-gnu"))
    } else if str_eq(os, "linux") && str_eq(arch, "aarch64") {
        Ok(("codex-aarch64-unknown-linux-gnu.tar.gz", "codex-aarch64-unknown-linux-gnu"))
    } else if str_eq(os, "windows") && str_eq(arch, "x86_64") {
        Ok(("codex-x86_64-pc-windows-msvc.exe.tar.gz", "codex-x86_64-pc-windows-msvc.exe"))
    } else if str_eq(os, "windows") && str_eq(arch, "aarch64") {
        Ok(("codex-aarch64-pc-windows-msvc.exe.tar.gz", "codex-aarch64-pc-windows-msvc.exe"))
    } else {
        Err(owned("Unsupported platform"))
    }
}

} // verus!
