//! The line logic of the NDJSON tailer: it assembles complete lines out of the
//! segments that reading a growing file yields, buffers a partial last line,
//! caps an unbounded line, and decides when the file must be read again from
//! the start. Opening and reading the file is left to the caller.
use vstd::prelude::*;

use crate::text::{owned, trim_str, trimmed};

verus! {

/// Polling interval of a tailer, in milliseconds.
pub const POLL_INTERVAL_MS: u64 = 50;

/// Largest partial line, in UTF-8 bytes, that is buffered; a longer one is
/// flushed as a line, cut at a character boundary within the cap.
pub const MAX_INCOMPLETE_LINE_BYTES: usize = 2 * 1024 * 1024;

/// Bytes that a fingerprint of the file's start holds.
pub const FINGERPRINT_BYTES: usize = 64;

/// Bytes that `c` takes in UTF-8.
pub open spec fn char_size(c: char) -> nat {
    if (c as u32) < 0x80 {
        1
    } else if (c as u32) < 0x800 {
        2
    } else if (c as u32) < 0x10000 {
        3
    } else {
        4
    }
}

/// Bytes that `s` takes in UTF-8.
pub open spec fn utf8_size(s: Seq<char>) -> nat
    decreases s.len(),
{
    if s.len() == 0 {
        0
    } else {
        utf8_size(s.drop_last()) + char_size(s.last())
    }
}

pub open spec fn min_nat(a: nat, b: nat) -> nat {
    if a < b {
        a
    } else {
        b
    }
}

/// The number of leading characters of `b` from `k` on that stay within the
/// cap: the first `k'` whose next character would cross it.
pub open spec fn cut_len(b: Seq<char>, k: nat) -> nat
    decreases b.len() - k,
{
    if k >= b.len() {
        b.len()
    } else if utf8_size(b.subrange(0, k + 1 as int)) > MAX_INCOMPLETE_LINE_BYTES {
        k
    } else {
        cut_len(b, k + 1)
    }
}

/// The text without its trailing newlines and carriage returns.
pub open spec fn strip_eol(s: Seq<char>) -> Seq<char>
    decreases s.len(),
{
    if s.len() > 0 && (s.last() == '\n' || s.last() == '\r') {
        strip_eol(s.drop_last())
    } else {
        s
    }
}

/// One segment read from the file (text up to and including a newline, or the
/// rest of the file): the new buffer and the line completed, if any.
pub open spec fn segment_step(buf: Seq<char>, seg: Seq<char>) -> (Seq<char>, Option<Seq<char>>) {
    let b = buf + seg;
    if utf8_size(b) > MAX_INCOMPLETE_LINE_BYTES {
        (Seq::empty(), Some(b.subrange(0, cut_len(b, 0) as int)))
    } else if b.len() > 0 && b.last() == '\n' {
        (Seq::empty(), Some(strip_eol(b)))
    } else {
        (b, None)
    }
}

/// The trailing data as a final line: none when it is empty or blank.
pub open spec fn flush_spec(buf: Seq<char>) -> Option<Seq<char>> {
    if buf.len() == 0 || trimmed(strip_eol(buf)).len() == 0 {
        None
    } else {
        Some(strip_eol(buf))
    }
}

fn char_len_utf8(c: char) -> (r: usize)
    ensures
        r == char_size(c),
{
    let v = c as u32;
    if v < 0x80 {
        1
    } else if v < 0x800 {
        2
    } else if v < 0x10000 {
        3
    } else {
        4
    }
}

/// The UTF-8 size of `s`, or `limit + 1` if it is larger than `limit`.
fn utf8_size_capped(s: &str, limit: usize) -> (r: usize)
    requires
        limit <= MAX_INCOMPLETE_LINE_BYTES,
    ensures
        r == min_nat(utf8_size(s@), (limit + 1) as nat),
{
    let sv = crate::text::chars_of(s);
    let n = sv.len();
    let mut acc: usize = 0;
    let mut i: usize = 0;
    while i < n
        invariant
            sv@ == s@,
            n == s@.len(),
            i <= n,
            limit <= MAX_INCOMPLETE_LINE_BYTES,
            acc <= limit + 1,
            acc == min_nat(utf8_size(s@.subrange(0, i as int)), (limit + 1) as nat),
        decreases n - i,
    {
        let c = char_len_utf8(sv[i]);
        assert(s@.subrange(0, i + 1).drop_last() =~= s@.subrange(0, i as int));
        if acc + c > limit {
            acc = limit + 1;
        } else {
            acc = acc + c;
        }
        i = i + 1;
    }
    assert(s@.subrange(0, n as int) =~= s@);
    acc
}

/// The number of characters of `b` that stay within the cap.
fn cut_point(b: &str) -> (r: usize)
    ensures
        r == cut_len(b@, 0),
{
    let bv = crate::text::chars_of(b);
    let n = bv.len();
    let mut size: usize = 0;
    let mut i: usize = 0;
    while i < n
        invariant
            bv@ == b@,
            n == b@.len(),
            i <= n,
            size == utf8_size(b@.subrange(0, i as int)),
            size <= MAX_INCOMPLETE_LINE_BYTES,
            cut_len(b@, 0) == cut_len(b@, i as nat),
        decreases n - i,
    {
        let c = char_len_utf8(bv[i]);
        assert(b@.subrange(0, i + 1).drop_last() =~= b@.subrange(0, i as int));
        if size + c > MAX_INCOMPLETE_LINE_BYTES {
            return i;
        }
        size = size + c;
        i = i + 1;
    }
    i
}

/// `s` without its trailing newlines and carriage returns.
fn strip_eol_str(s: &str) -> (r: String)
    ensures
        r@ == strip_eol(s@),
{
    let sv = crate::text::chars_of(s);
    let mut end = sv.len();
    assert(s@.subrange(0, end as int) =~= s@);
    while end > 0 && (sv[end - 1] == '\n' || sv[end - 1] == '\r')
        invariant
            sv@ == s@,
            end <= s@.len(),
            strip_eol(s@) == strip_eol(s@.subrange(0, end as int)),
        decreases end,
    {
        assert(s@.subrange(0, end as int).drop_last() =~= s@.subrange(0, end - 1));
        end = end - 1;
    }
    owned(s.substring_char(0, end))
}

/// The partial line of a tailer.
pub struct LineAssembler {
    pub buffer: String,
    pub buffer_bytes: usize,
}

impl View for LineAssembler {
    type V = Seq<char>;

    open spec fn view(&self) -> Seq<char> {
        self.buffer@
    }
}

impl LineAssembler {
    pub open spec fn wf(&self) -> bool {
        self.buffer_bytes == utf8_size(self.buffer@) && self.buffer_bytes
            <= MAX_INCOMPLETE_LINE_BYTES
    }

    pub fn new() -> (r: LineAssembler)
        ensures
            r@ == Seq::<char>::empty(),
            r.wf(),
    {
        LineAssembler { buffer: String::new(), buffer_bytes: 0 }
    }

    /// Drops the partial line, as when the file is read again from its start.
    pub fn reset(&mut self)
        ensures
            final(self)@ == Seq::<char>::empty(),
            final(self).wf(),
    {
        self.buffer = String::new();
        self.buffer_bytes = 0;
    }

    /// Takes one segment read from the file and returns the line it completes.
    pub fn push_segment(&mut self, segment: &str) -> (r: Option<String>)
        requires
            old(self).wf(),
        ensures
            final(self).wf(),
            (final(self)@, crate::types::opt_view(r)) == segment_step(old(self)@, segment@),
    {
        let seg_bytes = utf8_size_capped(segment, MAX_INCOMPLETE_LINE_BYTES);
        let ghost b = self.buffer@ + segment@;
        proof {
            lemma_utf8_size_concat(self.buffer@, segment@);
        }
        self.buffer.append(segment);
        if self.buffer_bytes + seg_bytes > MAX_INCOMPLETE_LINE_BYTES {
            let cut = cut_point(self.buffer.as_str());
            proof {
                lemma_cut_len_bound(b, 0);
            }
            let line = owned(self.buffer.as_str().substring_char(0, cut));
            self.reset();
            return Some(line);
        }
        self.buffer_bytes = self.buffer_bytes + seg_bytes;
        let n = self.buffer.as_str().unicode_len();
        if n > 0 && self.buffer.as_str().get_char(n - 1) == '\n' {
            let line = strip_eol_str(self.buffer.as_str());
            self.reset();
            return Some(line);
        }
        None
    }

    /// Returns the trailing data as a final line, unless it is empty or blank,
    /// and clears it. Used once the writer has exited.
    pub fn flush_buffer(&mut self) -> (r: Option<String>)
        requires
            old(self).wf(),
        ensures
            final(self).wf(),
            final(self)@ == Seq::<char>::empty(),
            crate::types::opt_view(r) == flush_spec(old(self)@),
    {
        if self.buffer.as_str().unicode_len() == 0 {
            return None;
        }
        let line = strip_eol_str(self.buffer.as_str());
        self.reset();
        if trim_str(line.as_str()).unicode_len() == 0 {
            None
        } else {
            Some(line)
        }
    }

    /// Whether a partial line is buffered.
    pub fn has_incomplete_data(&self) -> (r: bool)
        ensures
            r == (self@.len() > 0),
    {
        self.buffer.as_str().unicode_len() > 0
    }
}

pub proof fn lemma_utf8_size_concat(a: Seq<char>, b: Seq<char>)
    ensures
        utf8_size(a + b) == utf8_size(a) + utf8_size(b),
    decreases b.len(),
{
    if b.len() == 0 {
        assert(a + b =~= a);
    } else {
        assert((a + b).drop_last() =~= a + b.drop_last());
        lemma_utf8_size_concat(a, b.drop_last());
    }
}

proof fn lemma_cut_len_bound(b: Seq<char>, k: nat)
    requires
        k <= b.len(),
    ensures
        k <= cut_len(b, k) <= b.len(),
    decreases b.len() - k,
{
    if k < b.len() && utf8_size(b.subrange(0, k + 1 as int)) <= MAX_INCOMPLETE_LINE_BYTES {
        lemma_cut_len_bound(b, k + 1);
    }
}

/// Segments in order through `segment_step`: the buffer left and the lines.
pub open spec fn feed_spec(buf: Seq<char>, segs: Seq<Seq<char>>) -> (Seq<char>, Seq<Seq<char>>)
    decreases segs.len(),
{
    if segs.len() == 0 {
        (buf, Seq::empty())
    } else {
        let (b1, l) = segment_step(buf, segs[0]);
        let (b2, ls) = feed_spec(b1, segs.drop_first());
        (
            b2,
            match l {
                Some(x) => seq![x] + ls,
                None => ls,
            },
        )
    }
}

/// Each line followed by a newline.
pub open spec fn joined(lines: Seq<Seq<char>>) -> Seq<char>
    decreases lines.len(),
{
    if lines.len() == 0 {
        Seq::empty()
    } else {
        lines[0] + seq!['\n'] + joined(lines.drop_first())
    }
}

pub open spec fn concat_all(segs: Seq<Seq<char>>) -> Seq<char>
    decreases segs.len(),
{
    if segs.len() == 0 {
        Seq::empty()
    } else {
        segs[0] + concat_all(segs.drop_first())
    }
}

/// What one read of a line yields: no newline but possibly as the last character.
pub open spec fn is_segment(seg: Seq<char>) -> bool {
    forall|i: int| 0 <= i < seg.len() - 1 ==> seg[i] != '\n'
}

pub open spec fn no_newline(s: Seq<char>) -> bool {
    forall|i: int| 0 <= i < s.len() ==> s[i] != '\n'
}

pub open spec fn no_cr(s: Seq<char>) -> bool {
    forall|i: int| 0 <= i < s.len() ==> s[i] != '\r'
}

/// Every stretch of `c` without a newline is shorter than the cap.
pub open spec fn short_lines(c: Seq<char>) -> bool {
    forall|i: int, j: int|
        0 <= i <= j <= c.len() && no_newline(#[trigger] c.subrange(i, j)) ==> utf8_size(
            c.subrange(i, j),
        ) < MAX_INCOMPLETE_LINE_BYTES
}

proof fn lemma_short_lines_suffix(x: Seq<char>, y: Seq<char>)
    requires
        short_lines(x + y),
    ensures
        short_lines(y),
{
    assert forall|i: int, j: int|
        0 <= i <= j <= y.len() && no_newline(#[trigger] y.subrange(i, j)) implies utf8_size(
        y.subrange(i, j),
    ) < MAX_INCOMPLETE_LINE_BYTES by {
        assert((x + y).subrange(x.len() + i, x.len() + j) =~= y.subrange(i, j));
    }
}

proof fn lemma_feed(buf: Seq<char>, segs: Seq<Seq<char>>)
    requires
        no_newline(buf),
        forall|k: int| 0 <= k < segs.len() ==> is_segment(#[trigger] segs[k]),
        no_cr(buf + concat_all(segs)),
        short_lines(buf + concat_all(segs)),
    ensures
        joined(feed_spec(buf, segs).1) + feed_spec(buf, segs).0 == buf + concat_all(segs),
        no_newline(feed_spec(buf, segs).0),
    decreases segs.len(),
{
    if segs.len() == 0 {
        assert(joined(Seq::<Seq<char>>::empty()) + buf =~= buf + concat_all(segs));
    } else {
        let seg = segs[0];
        let rest = segs.drop_first();
        let b = buf + seg;
        let whole = buf + concat_all(segs);
        assert(whole =~= b + concat_all(rest));
        assert forall|k: int| 0 <= k < rest.len() implies is_segment(#[trigger] rest[k]) by {
            assert(rest[k] == segs[k + 1]);
        }
        assert(is_segment(segs[0]));
        if b.len() > 0 && b.last() == '\n' {
            let line = b.drop_last();
            assert(no_newline(line)) by {
                assert forall|i: int| 0 <= i < line.len() implies line[i] != '\n' by {
                    if i < buf.len() {
                        assert(line[i] == buf[i]);
                    } else {
                        assert(line[i] == seg[i - buf.len()]);
                    }
                }
            }
            assert(whole.subrange(0, line.len() as int) =~= line);
            assert(utf8_size(line) < MAX_INCOMPLETE_LINE_BYTES);
            assert(b.drop_last() == line);
            assert(utf8_size(b) == utf8_size(line) + 1);
            assert(line.len() == 0 || line.last() != '\r') by {
                if line.len() > 0 {
                    assert(whole[line.len() - 1] == line.last());
                }
            }
            assert(strip_eol(line) == line);
            assert(strip_eol(b) == line);
            lemma_short_lines_suffix(b, concat_all(rest));
            assert(no_cr(concat_all(rest))) by {
                assert forall|i: int| 0 <= i < concat_all(rest).len() implies concat_all(
                    rest,
                )[i] != '\r' by {
                    assert(whole[b.len() + i] == concat_all(rest)[i]);
                }
            }
            assert(Seq::<char>::empty() + concat_all(rest) =~= concat_all(rest));
            lemma_feed(Seq::empty(), rest);
            let (b2, ls) = feed_spec(Seq::empty(), rest);
            assert((seq![line] + ls).drop_first() =~= ls);
            assert(joined(seq![line] + ls) == line + seq!['\n'] + joined(ls));
            assert(line + seq!['\n'] =~= b);
            assert(joined(seq![line] + ls) + b2 =~= b + (joined(ls) + b2));
        } else {
            assert(no_newline(b)) by {
                assert forall|i: int| 0 <= i < b.len() implies b[i] != '\n' by {
                    if i < buf.len() {
                        assert(b[i] == buf[i]);
                    } else {
                        assert(b[i] == seg[i - buf.len()]);
                    }
                }
            }
            assert(whole.subrange(0, b.len() as int) =~= b);
            assert(utf8_size(b) < MAX_INCOMPLETE_LINE_BYTES);
            lemma_feed(b, rest);
        }
    }
}

/// Round trip of the tailer: for segments read in order (each ending at a
/// newline or at the end of what was written), over text without carriage
/// returns whose lines stay under the cap, the lines emitted, each followed by
/// a newline, and then the buffered rest give back the text read; the rest
/// holds no newline, and it is what `flush_buffer` returns when it is not
/// blank (nothing when it is empty).
pub proof fn lemma_tail_round_trip(segs: Seq<Seq<char>>)
    requires
        forall|k: int| 0 <= k < segs.len() ==> is_segment(#[trigger] segs[k]),
        no_cr(concat_all(segs)),
        short_lines(concat_all(segs)),
    ensures
        ({
            let (rest, lines) = feed_spec(Seq::empty(), segs);
            &&& joined(lines) + rest == concat_all(segs)
            &&& no_newline(rest)
            &&& (rest.len() == 0 ==> flush_spec(rest) is None)
            &&& (rest.len() > 0 && trimmed(rest).len() > 0 ==> flush_spec(rest) == Some(rest))
        }),
{
    assert(Seq::<char>::empty() + concat_all(segs) =~= concat_all(segs));
    lemma_feed(Seq::empty(), segs);
    let rest = feed_spec(Seq::<char>::empty(), segs).0;
    if rest.len() > 0 {
        assert(rest.last() != '\n');
        assert(rest.last() != '\r') by {
            let c = concat_all(segs);
            let lines = feed_spec(Seq::<char>::empty(), segs).1;
            assert(c[c.len() - 1] == rest.last()) by {
                assert(c == joined(lines) + rest);
            }
        }
        assert(strip_eol(rest) == rest);
    }
    let lines = feed_spec(Seq::<char>::empty(), segs).1;
    assert(joined(lines) + rest == concat_all(segs));
    assert(no_newline(rest));
    assert(rest.len() == 0 ==> flush_spec(rest) is None);
    assert(rest.len() > 0 && trimmed(rest).len() > 0 ==> flush_spec(rest) == Some(rest));
}

/// The tail was truncated when the file is shorter than the position read to:
/// it is then read again from the start.
pub fn truncated(file_len: u64, position: u64) -> (r: bool)
    ensures
        r == (file_len < position),
{
    file_len < position
}

/// The file was replaced when a poll that did not already reopen it found no
/// line and no partial line, sits at the end of a non-empty file, and sees a
/// full fingerprint different from the full one taken after the last read.
pub fn replaced(
    reopened_this_poll: bool,
    lines_empty: bool,
    buffer_empty: bool,
    position: u64,
    file_len: u64,
    stored_fingerprint: &Vec<u8>,
    current_fingerprint: &Vec<u8>,
) -> (r: bool)
    ensures
        r == (!reopened_this_poll && lines_empty && buffer_empty && stored_fingerprint@.len()
            == FINGERPRINT_BYTES && position == file_len && position > 0
            && current_fingerprint@.len() == FINGERPRINT_BYTES && current_fingerprint@
            != stored_fingerprint@),
{
    if reopened_this_poll || !lines_empty || !buffer_empty || stored_fingerprint.len()
        != FINGERPRINT_BYTES || position != file_len || position == 0
        || current_fingerprint.len() != FINGERPRINT_BYTES {
        return false;
    }
    let mut i: usize = 0;
    while i < FINGERPRINT_BYTES
        invariant
            i <= FINGERPRINT_BYTES,
            !reopened_this_poll && lines_empty && buffer_empty,
            position == file_len && position > 0,
            stored_fingerprint@.len() == FINGERPRINT_BYTES,
            current_fingerprint@.len() == FINGERPRINT_BYTES,
            forall|j: int| 0 <= j < i ==> current_fingerprint@[j] == stored_fingerprint@[j],
        decreases FINGERPRINT_BYTES - i,
    {
        if current_fingerprint[i] != stored_fingerprint[i] {
            assert(current_fingerprint@[i as int] != stored_fingerprint@[i as int]);
            return true;
        }
        i = i + 1;
    }
    assert(current_fingerprint@ =~= stored_fingerprint@);
    false
}

/// What a poll does after reading to the end of the file.
#[derive(Debug, Clone, Copy, PartialEq, Eq, Structural)]
pub enum AfterRead {
    /// The file was replaced: read it again from the start, once per poll.
    ReopenAndRetry,
    /// Lines were read: take the current fingerprint, then return them.
    RefreshFingerprint,
    /// Return what was read.
    Done,
}

/// The decision after a poll's reads, given the fingerprint just taken (none
/// when it could not be read): a replaced file is read again; otherwise a
/// poll that produced lines refreshes the stored fingerprint.
pub fn after_read(
    reopened_this_poll: bool,
    lines_empty: bool,
    buffer_empty: bool,
    position: u64,
    file_len: u64,
    stored_fingerprint: &Vec<u8>,
    current_fingerprint: Option<&Vec<u8>>,
) -> (r: AfterRead)
    ensures
        r == match current_fingerprint {
            Some(fp) => if (!reopened_this_poll && lines_empty && buffer_empty
                && stored_fingerprint@.len() == FINGERPRINT_BYTES && position == file_len
                && position > 0 && fp@.len() == FINGERPRINT_BYTES && fp@ != stored_fingerprint@) {
                AfterRead::ReopenAndRetry
            } else if !lines_empty {
                AfterRead::RefreshFingerprint
            } else {
                AfterRead::Done
            },
            None => if !lines_empty {
                AfterRead::RefreshFingerprint
            } else {
                AfterRead::Done
            },
        },
{
    if let Some(fp) = current_fingerprint {
        if replaced(
            reopened_this_poll,
            lines_empty,
            buffer_empty,
            position,
            file_len,
            stored_fingerprint,
            fp,
        ) {
            return AfterRead::ReopenAndRetry;
        }
    }
    if !lines_empty {
        AfterRead::RefreshFingerprint
    } else {
        AfterRead::Done
    }
}

} // verus!
