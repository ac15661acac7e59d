//! Joining the lines read from stdin into one message: the first
//! line, then each further line preceded by a newline.

use vstd::prelude::*;
use crate::env_file::line_views;

verus! {

/// The message that a sequence of lines makes: the lines joined with
/// newlines.
pub open spec fn joined_lines(lines: Seq<Seq<char>>) -> Seq<char>
    decreases lines.len(),
{
    if lines.len() == 0 {
        Seq::empty()
    } else if lines.len() == 1 {
        lines[0]
    } else {
        joined_lines(lines.drop_last()) + seq!['\n'] + lines.last()
    }
}

/// Join the lines read from stdin into one message. At least one line
/// must have been read: an empty stdin has no message.
pub fn join_lines(lines: &Vec<String>) -> (r: String)
    requires
        lines@.len() >= 1,
    ensures
        r@ == joined_lines(line_views(lines@)),
{
    let mut out = lines[0].clone();
    proof {
        assert(line_views(lines@.subrange(0, 1)) =~= seq![lines@[0]@]);
    }
    let mut i: usize = 1;
    while i < lines.len()
        invariant
            1 <= i <= lines@.len(),
            out@ == joined_lines(line_views(lines@.subrange(0, i as int))),
        decreases lines@.len() - i,
    {
        let ghost prefix = lines@.subrange(0, i as int);
        let ghost prefix1 = lines@.subrange(0, i + 1);
        proof {
            assert(line_views(prefix1).drop_last() =~= line_views(prefix));
            assert(line_views(prefix1).last() == lines@[i as int]@);
            reveal_strlit("\n");
            assert("\n"@ =~= seq!['\n']);
        }
        out.append("\n");
        out.append(lines[i].as_str());
        i += 1;
    }
    proof {
        assert(lines@.subrange(0, lines@.len() as int) =~= lines@);
    }
    out
}

} // verus!
