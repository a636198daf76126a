//! The URL list: a newline-delimited text, one URL per line. Splitting
//! follows the usual line convention: lines end at `\n` or `\r\n`, a carriage
//! return directly before the newline belongs to the ending, and a final line
//! without a trailing newline still counts.

use vstd::prelude::*;

use crate::sanitize::push_char;

verus! {

/// The segments of `s` between its newline characters, in order: one more
/// segment than there are newlines, each without the `\n` itself.
pub open spec fn segments(s: Seq<char>) -> Seq<Seq<char>>
    decreases s.len(),
{
    if s.len() == 0 {
        seq![Seq::<char>::empty()]
    } else if s.last() == '\n' {
        segments(s.drop_last()).push(Seq::<char>::empty())
    } else {
        let prev = segments(s.drop_last());
        prev.update(prev.len() - 1, prev.last().push(s.last()))
    }
}

/// A carriage return directly before a line ending is part of the ending and
/// not of the line.
pub open spec fn strip_trailing_cr(line: Seq<char>) -> Seq<char> {
    if line.len() > 0 && line.last() == '\r' {
        line.drop_last()
    } else {
        line
    }
}

/// The lines that a newline already closed: every segment but the unclosed
/// last one, each with its carriage return stripped.
pub open spec fn closed_lines(s: Seq<char>) -> Seq<Seq<char>> {
    segments(s).drop_last().map_values(|line: Seq<char>| strip_trailing_cr(line))
}

/// The lines of `s`: the closed ones, and the final unclosed segment as it
/// stands, unless it is empty.
pub open spec fn lines_spec(s: Seq<char>) -> Seq<Seq<char>> {
    if segments(s).last().len() == 0 {
        closed_lines(s)
    } else {
        closed_lines(s).push(segments(s).last())
    }
}

/// There is always at least the one unclosed segment.
proof fn lemma_segments_nonempty(s: Seq<char>)
    ensures
        segments(s).len() >= 1,
    decreases s.len(),
{
    if s.len() != 0 {
        lemma_segments_nonempty(s.drop_last());
    }
}

/// Split a URL list into its lines.
pub fn split_lines(contents: &str) -> (r: Vec<String>)
    ensures
        r.deep_view() == lines_spec(contents@),
{
    let mut out: Vec<String> = Vec::new();
    let mut cur = String::new();
    // Whether the segment so far ends with a carriage return that `cur` does
    // not hold yet: it may belong to a `\r\n` ending still to come.
    let mut pending_cr = false;
    for c in it: contents.chars()
        invariant
            it.seq() == contents@,
            out.deep_view() == closed_lines(contents@.take(it.index() as int)),
            pending_cr ==> cur@.push('\r') == segments(contents@.take(it.index() as int)).last(),
            !pending_cr ==> cur@ == segments(contents@.take(it.index() as int)).last() && (cur@.len()
                == 0 || cur@.last() != '\r'),
    {
        let ghost p = contents@.take(it.index() as int);
        let ghost segs = segments(p);
        proof {
            lemma_segments_nonempty(p);
            assert(p.push(c).drop_last() =~= p);
            assert(contents@.take(it.index() + 1) =~= p.push(c));
        }
        if c == '\n' {
            let ghost out0 = out.deep_view();
            let ghost ov0 = out@;
            let line = cur;
            cur = String::new();
            pending_cr = false;
            out.push(line);
            proof {
                assert(segments(p.push(c)) == segs.push(Seq::<char>::empty()));
                assert(segments(p.push(c)).drop_last() =~= segs);
                assert(out@ == ov0.push(out@[ov0.len() as int]));
                assert(out@[ov0.len() as int]@ == strip_trailing_cr(segs.last()));
                assert(out.deep_view() =~= out0.push(strip_trailing_cr(segs.last())));
                assert(closed_lines(p.push(c)) =~= closed_lines(p).push(
                    strip_trailing_cr(segs.last()),
                ));
            }
        } else {
            if pending_cr {
                push_char(&mut cur, '\r');
                pending_cr = false;
            }
            if c == '\r' {
                pending_cr = true;
            } else {
                push_char(&mut cur, c);
            }
            proof {
                assert(segments(p.push(c)) == segs.update(segs.len() - 1, segs.last().push(c)));
                assert(segments(p.push(c)).drop_last() =~= segs.drop_last());
                assert(closed_lines(p.push(c)) =~= closed_lines(p));
                assert(segments(p.push(c)).last() == segs.last().push(c));
            }
        }
    }
    proof {
        assert(contents@.take(contents@.len() as int) =~= contents@);
        lemma_segments_nonempty(contents@);
    }
    if pending_cr {
        push_char(&mut cur, '\r');
    }
    if !cur.as_str().is_empty() {
        let ghost out0 = out.deep_view();
        let ghost ov0 = out@;
        out.push(cur);
        proof {
            assert(out@ == ov0.push(out@[ov0.len() as int]));
            assert(out.deep_view() =~= out0.push(segments(contents@).last()));
        }
    }
    out
}

/// Splitting is deterministic and total: every text has exactly one sequence
/// of lines, and equal texts have equal lines.
pub proof fn lemma_lines_deterministic(s1: Seq<char>, s2: Seq<char>)
    requires
        s1 == s2,
    ensures
        lines_spec(s1) == lines_spec(s2),
{
}

} // verus!
