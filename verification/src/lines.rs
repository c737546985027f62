//! Splitting document text into its lines. The analysis works on the
//! document as an ordered sequence of lines; a line runs to the next
//! newline or to the end of the text, and a carriage return immediately
//! before a newline belongs to the terminator, not to the line. A carriage
//! return that no newline follows stays part of its line.

use crate::patterns::{class_run, run_len, CharClass};
use vstd::prelude::*;

verus! {

/// A newline-terminated line with a trailing carriage return stripped: the
/// pair was one terminator.
pub open spec fn strip_cr(l: Seq<char>) -> Seq<char> {
    if l.len() > 0 && l[l.len() - 1] == '\r' {
        l.drop_last()
    } else {
        l
    }
}

/// The lines of the text from position `i` on. A final newline terminates
/// the last line rather than opening an empty one.
pub open spec fn lines_from(s: Seq<char>, i: int) -> Seq<Seq<char>>
    decreases s.len() - i when 0 <= i <= s.len()
{
    if i == s.len() {
        Seq::empty()
    } else {
        let k = run_len(CharClass::NotNewline, s, i);
        if i + k >= s.len() {
            seq![s.subrange(i, s.len() as int)]
        } else {
            seq![strip_cr(s.subrange(i, i + k))] + lines_from(s, i + k + 1)
        }
    }
}

/// The lines of a whole text.
pub open spec fn spec_lines(s: Seq<char>) -> Seq<Seq<char>> {
    lines_from(s, 0)
}

/// Splits document text into its lines.
#[verifier::loop_isolation(false)]
pub fn split_lines(text: &str) -> (r: Vec<String>)
    ensures
        r.deep_view() == spec_lines(text@),
{
    let n = text.unicode_len();
    let mut r: Vec<String> = Vec::new();
    let mut pos: usize = 0;
    while pos < n
        invariant
            pos <= n,
            spec_lines(text@) == r.deep_view() + lines_from(text@, pos as int),
        decreases n - pos,
    {
        let k = class_run(CharClass::NotNewline, text, pos);
        let line_end = pos + k;
        let content_end = if line_end < n && k > 0 && text.get_char(line_end - 1) == '\r' {
            line_end - 1
        } else {
            line_end
        };
        let line = text.substring_char(pos, content_end).to_owned();
        proof {
            let s = text@;
            let i = pos as int;
            let seg = s.subrange(i, i + k);
            if line_end < n {
                if k > 0 && s[i + k - 1] == '\r' {
                    assert(seg[k - 1] == '\r');
                    assert(strip_cr(seg) =~= s.subrange(i, i + k - 1));
                } else {
                    if seg.len() > 0 {
                        assert(seg[k - 1] == s[i + k - 1]);
                    }
                    assert(strip_cr(seg) =~= seg);
                }
            }
        }
        let ghost old_r = r.deep_view();
        r.push(line);
        proof {
            assert(r.deep_view() =~= old_r + seq![line@]);
        }
        pos = if line_end == n {
            n
        } else {
            line_end + 1
        };
        proof {
            assert(spec_lines(text@) =~= r.deep_view() + lines_from(text@, pos as int));
        }
    }
    proof {
        assert(r.deep_view() =~= spec_lines(text@));
    }
    r
}

} // verus!
