//! The tail of a stderr log that goes into an error message: its last ten
//! non-blank lines, without trailing white space.
use vstd::prelude::*;

use crate::text::{owned, trim_end_str, trim_str, trimmed, trimmed_end};

verus! {

/// Lines kept in a stderr tail.
pub const STDERR_TAIL_LINES: usize = 10;

/// The pieces of `s` between newlines (one more than it has newlines).
pub open spec fn pieces(s: Seq<char>) -> Seq<Seq<char>>
    decreases s.len(),
{
    if s.len() == 0 {
        seq![Seq::empty()]
    } else {
        let p = pieces(s.drop_last());
        if s.last() == '\n' {
            p.push(Seq::empty())
        } else {
            p.update(p.len() - 1, p.last().push(s.last()))
        }
    }
}

/// A piece as a line: without the carriage return that ends a CRLF line.
pub open spec fn as_line(p: Seq<char>) -> Seq<char> {
    if p.len() > 0 && p.last() == '\r' {
        p.drop_last()
    } else {
        p
    }
}

/// The non-blank lines, each without trailing white space.
pub open spec fn kept_lines(ps: Seq<Seq<char>>) -> Seq<Seq<char>>
    decreases ps.len(),
{
    if ps.len() == 0 {
        Seq::empty()
    } else {
        let k = kept_lines(ps.drop_last());
        let l = trimmed_end(as_line(ps.last()));
        if trimmed(l).len() > 0 {
            k.push(l)
        } else {
            k
        }
    }
}

/// Lines joined with newlines.
pub open spec fn join_lines(ls: Seq<Seq<char>>) -> Seq<char>
    decreases ls.len(),
{
    if ls.len() == 0 {
        Seq::empty()
    } else if ls.len() == 1 {
        ls[0]
    } else {
        join_lines(ls.drop_last()) + seq!['\n'] + ls.last()
    }
}

pub open spec fn stderr_tail_spec(text: Seq<char>) -> Option<Seq<char>> {
    let k = kept_lines(pieces(text));
    if k.len() == 0 {
        None
    } else {
        let t = if k.len() > STDERR_TAIL_LINES {
            k.subrange(k.len() - STDERR_TAIL_LINES, k.len() as int)
        } else {
            k
        };
        Some(join_lines(t))
    }
}

proof fn lemma_pieces_nonempty(s: Seq<char>)
    ensures
        pieces(s).len() >= 1,
    decreases s.len(),
{
    if s.len() > 0 {
        lemma_pieces_nonempty(s.drop_last());
    }
}

pub open spec fn strs_view(v: Seq<String>) -> Seq<Seq<char>> {
    v.map_values(|s: String| s@)
}

fn keep_piece(kept: &mut Vec<String>, text: &str, start: usize, end: usize, Ghost(done): Ghost<
    Seq<Seq<char>>,
>)
    requires
        start <= end <= text@.len(),
        strs_view(old(kept)@) == kept_lines(done),
    ensures
        strs_view(final(kept)@) == kept_lines(done.push(text@.subrange(start as int, end as int))),
{
    let piece = text.substring_char(start, end);
    let pv = crate::text::chars_of(piece);
    let n = pv.len();
    let line = if n > 0 && pv[n - 1] == '\r' {
        piece.substring_char(0, n - 1)
    } else {
        piece
    };
    assert(line@ == as_line(piece@));
    let l = trim_end_str(line);
    let ghost d = done.push(text@.subrange(start as int, end as int));
    assert(d.drop_last() =~= done);
    if trim_str(l).unicode_len() > 0 {
        let ghost before = kept@;
        kept.push(owned(l));
        assert(strs_view(kept@) =~= strs_view(before).push(l@));
    }
}

/// The last ten non-blank lines of `text`, trimmed at the end and joined with
/// newlines; none when every line is blank.
pub fn stderr_tail(text: &str) -> (r: Option<String>)
    ensures
        crate::types::opt_view(r) == stderr_tail_spec(text@),
{
    let tv = crate::text::chars_of(text);
    let n = tv.len();
    let mut kept: Vec<String> = Vec::new();
    let ghost mut done: Seq<Seq<char>> = Seq::empty();
    let mut start: usize = 0;
    let mut i: usize = 0;
    assert(strs_view(kept@) =~= Seq::empty());
    assert(text@.subrange(0, 0) =~= Seq::<char>::empty());
    assert(pieces(Seq::<char>::empty()) =~= seq![text@.subrange(0, 0)]);
    while i < n
        invariant
            tv@ == text@,
            n == text@.len(),
            start <= i <= n,
            pieces(text@.subrange(0, i as int)) == done.push(text@.subrange(start as int, i as int)),
            strs_view(kept@) == kept_lines(done),
        decreases n - i,
    {
        let ghost p = pieces(text@.subrange(0, i as int));
        assert(text@.subrange(0, i + 1).drop_last() =~= text@.subrange(0, i as int));
        if tv[i] == '\n' {
            keep_piece(&mut kept, text, start, i, Ghost(done));
            proof {
                done = done.push(text@.subrange(start as int, i as int));
            }
            start = i + 1;
            assert(text@.subrange(start as int, i + 1) =~= Seq::<char>::empty());
        } else {
            assert(text@.subrange(start as int, i + 1) =~= text@.subrange(start as int, i as int).push(
                text@[i as int],
            ));
        }
        i = i + 1;
    }
    keep_piece(&mut kept, text, start, n, Ghost(done));
    assert(text@.subrange(0, n as int) =~= text@);
    let ghost all = done.push(text@.subrange(start as int, n as int));
    assert(pieces(text@) == all);
    let k = kept.len();
    if k == 0 {
        return None;
    }
    let from: usize = if k > STDERR_TAIL_LINES {
        k - STDERR_TAIL_LINES
    } else {
        0
    };
    let ghost lines = strs_view(kept@);
    let ghost t = lines.subrange(from as int, k as int);
    assert(t =~= if lines.len() > STDERR_TAIL_LINES {
        lines.subrange(lines.len() - STDERR_TAIL_LINES, lines.len() as int)
    } else {
        lines
    });
    let mut out = kept[from].clone();
    let mut j: usize = from + 1;
    assert(lines.subrange(from as int, j as int) =~= seq![lines[from as int]]);
    while j < k
        invariant
            from < j <= k,
            k == kept@.len(),
            lines == strs_view(kept@),
            out@ == join_lines(lines.subrange(from as int, j as int)),
        decreases k - j,
    {
        let ghost prev = lines.subrange(from as int, j as int);
        proof {
            reveal_strlit("\n");
            assert("\n"@ =~= seq!['\n']);
        }
        out = out.concat("\n").concat(kept[j].as_str());
        assert(lines.subrange(from as int, j + 1).drop_last() =~= prev);
        assert(lines.subrange(from as int, j + 1).last() == lines[j as int]);
        j = j + 1;
    }
    Some(out)
}

} // verus!
