//! Documentation lines of a source file: the `//!` comments, without their markers.

use vstd::prelude::*;

use crate::transform::lines_view;

verus! {

/// The text of a `//!` comment line, without the marker and one space after it.
pub open spec fn doc_text(line: Seq<char>) -> Option<Seq<char>> {
    if line.len() >= 3 && line.take(3) == "//!"@ {
        if line.len() >= 4 && line[3] == ' ' {
            Some(line.skip(4))
        } else {
            Some(line.skip(3))
        }
    } else {
        None
    }
}

/// The texts of the `//!` comment lines among `lines`, in order.
pub open spec fn doc_texts(lines: Seq<Seq<char>>) -> Seq<Seq<char>>
    decreases lines.len(),
{
    if lines.len() == 0 {
        seq![]
    } else {
        let init = doc_texts(lines.drop_last());
        match doc_text(lines.last()) {
            Some(t) => init.push(t),
            None => init,
        }
    }
}

/// The text of `line` if it is a `//!` comment.
pub fn doc_comment_text(line: &str) -> (r: Option<String>)
    ensures
        r is None <==> doc_text(line@) is None,
        r is Some ==> r->0@ == doc_text(line@)->0,
{
    proof {
        reveal_strlit("//!");
    }
    let len = line.unicode_len();
    if len >= 3 && line.get_char(0) == '/' && line.get_char(1) == '/' && line.get_char(2) == '!' {
        assert(line@.take(3) =~= "//!"@);
        let start: usize = if len >= 4 && line.get_char(3) == ' ' {
            4
        } else {
            3
        };
        let text = line.substring_char(start, len);
        assert(text@ =~= line@.skip(start as int));
        Some(String::from_str(text))
    } else {
        assert(len >= 3 ==> line@.take(3)[0] == line@[0] && line@.take(3)[1] == line@[1]
            && line@.take(3)[2] == line@[2]);
        None
    }
}

/// The documentation lines of a source file: the text of each `//!` comment, in order.
pub fn doc_lines(source: &Vec<String>) -> (r: Vec<String>)
    ensures
        lines_view(r@) == doc_texts(lines_view(source@)),
{
    let mut out: Vec<String> = Vec::new();
    let mut i: usize = 0;
    while i < source.len()
        invariant
            i <= source.len(),
            lines_view(out@) == doc_texts(lines_view(source@).take(i as int)),
        decreases source.len() - i,
    {
        let ghost seen = lines_view(source@).take(i as int + 1);
        assert(seen.drop_last() =~= lines_view(source@).take(i as int));
        assert(seen.last() == source@[i as int]@);
        match doc_comment_text(source[i].as_str()) {
            Some(text) => {
                let ghost before = out@;
                out.push(text);
                assert(lines_view(out@) =~= lines_view(before).push(text@));
            },
            None => {},
        }
        i = i + 1;
    }
    assert(lines_view(source@).take(source.len() as int) =~= lines_view(source@));
    out
}

} // verus!
