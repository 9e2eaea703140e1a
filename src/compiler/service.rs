//! Splitting a page into its front matter and its body.

use crate::text::{chars_of, pieces, string_of, trim, trim_bounds, trim_string};
use vstd::prelude::*;

verus! {

/// A line without the carriage return of a `\r\n` ending.
pub open spec fn strip_cr(l: Seq<char>) -> Seq<char> {
    if l.len() > 0 && l.last() == '\r' {
        l.drop_last()
    } else {
        l
    }
}

/// The lines of `s`, as `str::lines` gives them: ended by `\n` or `\r\n`,
/// the last one's ending optional, and no empty line after a final newline.
pub open spec fn text_lines(s: Seq<char>) -> Seq<Seq<char>> {
    let ps = pieces(s, '\n');
    let ended = ps.drop_last().map_values(|l: Seq<char>| strip_cr(l));
    if ps.last().len() == 0 {
        ended
    } else {
        ended.push(ps.last())
    }
}

/// A line that, trimmed, reads `---`.
pub open spec fn is_separator(line: Seq<char>) -> bool {
    trim(line) == "---"@
}

/// One line of the split: before the first separator and after the second
/// a line goes to the body, between them to the front matter; the two
/// separators themselves go nowhere, and later ones go to the body.
pub open spec fn split_step(st: (Seq<char>, Seq<char>, nat), line: Seq<char>) -> (
    Seq<char>,
    Seq<char>,
    nat,
) {
    if st.2 >= 2 {
        (st.0, st.1 + line + "\n"@, 2)
    } else if is_separator(line) {
        (st.0, st.1, st.2 + 1)
    } else if st.2 == 1 {
        (st.0 + line + "\n"@, st.1, 1)
    } else {
        (st.0, st.1 + line + "\n"@, 0)
    }
}

/// The front matter, the body and the number of separators seen after
/// the lines in order.
pub open spec fn split_lines(lines: Seq<Seq<char>>) -> (Seq<char>, Seq<char>, nat)
    decreases lines.len(),
{
    if lines.len() == 0 {
        (Seq::<char>::empty(), Seq::<char>::empty(), 0)
    } else {
        split_step(split_lines(lines.drop_last()), lines.last())
    }
}

/// The trimmed front matter and body of a page.
pub open spec fn page_parts(s: Seq<char>) -> (Seq<char>, Seq<char>) {
    let st = split_lines(text_lines(s));
    (trim(st.0), trim(st.1))
}

struct Split {
    front: String,
    body: String,
    seen: u8,
}

fn take_line(st: &mut Split, line: &Vec<char>)
    requires
        old(st).seen <= 2,
    ensures
        final(st).seen <= 2,
        (final(st).front@, final(st).body@, final(st).seen as nat) == split_step(
            (old(st).front@, old(st).body@, old(st).seen as nat),
            line@,
        ),
{
    let text = string_of(line);
    if st.seen >= 2 {
        st.body.append(text.as_str());
        st.body.append("\n");
        return;
    }
    let (lo, hi) = trim_bounds(line);
    let sep = hi - lo == 3 && line[lo] == '-' && line[lo + 1] == '-' && line[lo + 2] == '-';
    proof {
        reveal_strlit("---");
        let t = line@.subrange(lo as int, hi as int);
        if sep {
            assert(t =~= "---"@);
        } else if t.len() == 3 {
            if t == "---"@ {
                assert(t[0] == line@[lo as int]);
                assert(t[1] == line@[lo + 1]);
                assert(t[2] == line@[lo + 2]);
            }
        }
    }
    if sep {
        st.seen = st.seen + 1;
    } else if st.seen == 1 {
        st.front.append(text.as_str());
        st.front.append("\n");
    } else {
        st.body.append(text.as_str());
        st.body.append("\n");
    }
}

/// Splits a page into its front matter (the lines between the first two
/// `---` lines) and its body (every other line, but for those two), both
/// trimmed, as [`page_parts`] says.
pub fn split_frontmatter_and_body(content: &str) -> (r: (String, String))
    ensures
        (r.0@, r.1@) == page_parts(content@),
{
    let cs = chars_of(content);
    let mut st = Split { front: String::new(), body: String::new(), seen: 0 };
    let mut line: Vec<char> = Vec::new();
    let ghost mut done: Seq<Seq<char>> = Seq::empty();
    let mut i: usize = 0;
    proof {
        assert(cs@.take(0) =~= Seq::<char>::empty());
        assert(line@ =~= Seq::<char>::empty());
    }
    while i < cs.len()
        invariant
            i <= cs.len(),
            cs@ == content@,
            st.seen <= 2,
            pieces(cs@.take(i as int), '\n') == done.push(line@),
            (st.front@, st.body@, st.seen as nat) == split_lines(
                done.map_values(|l: Seq<char>| strip_cr(l)),
            ),
        decreases cs.len() - i,
    {
        let c = cs[i];
        proof {
            assert(cs@.take(i + 1).drop_last() =~= cs@.take(i as int));
            assert(cs@.take(i + 1).last() == c);
        }
        if c == '\n' {
            let ghost piece = line@;
            let n = line.len();
            if n > 0 && line[n - 1] == '\r' {
                line.pop();
            }
            proof {
                assert(line@ =~= strip_cr(piece));
            }
            take_line(&mut st, &line);
            proof {
                let old_done = done;
                done = done.push(piece);
                assert(done.map_values(|l: Seq<char>| strip_cr(l)).drop_last() =~= old_done.map_values(
                    |l: Seq<char>| strip_cr(l),
                ));
            }
            line = Vec::new();
            proof {
                assert(line@ =~= Seq::<char>::empty());
            }
        } else {
            proof {
                assert(done.push(line@).update(done.len() as int, line@.push(c)) =~= done.push(
                    line@.push(c),
                ));
            }
            line.push(c);
        }
        i = i + 1;
    }
    proof {
        assert(cs@.take(cs.len() as int) =~= cs@);
        assert(pieces(content@, '\n').drop_last() =~= done);
    }
    if line.len() > 0 {
        let ghost before = (st.front@, st.body@, st.seen as nat);
        take_line(&mut st, &line);
        proof {
            let lines = text_lines(content@);
            assert(lines.drop_last() =~= done.map_values(|l: Seq<char>| strip_cr(l)));
        }
    } else {
        proof {
            assert(text_lines(content@) =~= done.map_values(|l: Seq<char>| strip_cr(l)));
        }
    }
    let front = trim_string(st.front.as_str());
    let body = trim_string(st.body.as_str());
    (front, body)
}

} // verus!
