//! Parsing the lines of an env file into the (key, value) pairs they
//! set. A line sets a variable when it is not a comment (a leading
//! `#`) and holds an `=`: the key is what stands before the first `=`,
//! the value what stands between the first `=` and the second, or the
//! end of the line.

use vstd::prelude::*;

verus! {

/// Index of the first `=` in `s` at or after `i`; `s.len()` when
/// there is none.
pub open spec fn find_eq_from(s: Seq<char>, i: int) -> int
    decreases s.len() - i,
{
    if i < 0 || i >= s.len() {
        s.len() as int
    } else if s[i] == '=' {
        i
    } else {
        find_eq_from(s, i + 1)
    }
}

/// Whether a line sets a variable: it is no comment and holds an `=`.
pub open spec fn line_sets_var(s: Seq<char>) -> bool {
    !(s.len() > 0 && s[0] == '#') && find_eq_from(s, 0) < s.len()
}

/// The variable a line sets: what stands before its first `=`.
pub open spec fn env_key_of(s: Seq<char>) -> Seq<char> {
    s.subrange(0, find_eq_from(s, 0))
}

/// The value a line sets: what stands between its first `=` and its
/// second, or the end of the line. (`A=B=C` sets `A` to `B`.)
pub open spec fn env_value_of(s: Seq<char>) -> Seq<char> {
    let k = find_eq_from(s, 0);
    s.subrange(k + 1, find_eq_from(s, k + 1))
}

/// Find the first `=` in `line` at or after `from`.
fn find_eq(line: &str, from: usize) -> (r: usize)
    requires
        from <= line@.len(),
    ensures
        r == find_eq_from(line@, from as int),
        from <= r <= line@.len(),
{
    let len = line.unicode_len();
    let mut i = from;
    while i < len
        invariant
            from <= i <= len,
            len == line@.len(),
            find_eq_from(line@, from as int) == find_eq_from(line@, i as int),
        decreases len - i,
    {
        if line.get_char(i) == '=' {
            return i;
        }
        i += 1;
    }
    len
}

/// Parse one env-file line: the (key, value) pair it sets, or `None`
/// for a comment or a line without an `=`.
pub fn parse_env_line(line: &str) -> (r: Option<(String, String)>)
    ensures
        r is Some <==> line_sets_var(line@),
        r matches Some(kv) ==> kv.0@ == env_key_of(line@) && kv.1@ == env_value_of(line@),
{
    let len = line.unicode_len();
    if len > 0 && line.get_char(0) == '#' {
        return None;
    }
    let k = find_eq(line, 0);
    if k == len {
        return None;
    }
    let e = find_eq(line, k + 1);
    let key = line.substring_char(0, k);
    let value = line.substring_char(k + 1, e);
    Some((String::from_str(key), String::from_str(value)))
}

/// The views of a sequence of strings.
pub open spec fn line_views(lines: Seq<String>) -> Seq<Seq<char>> {
    lines.map_values(|l: String| l@)
}

/// The views of a sequence of string pairs.
pub open spec fn pair_views(ps: Seq<(String, String)>) -> Seq<(Seq<char>, Seq<char>)> {
    ps.map_values(|p: (String, String)| (p.0@, p.1@))
}

/// The (key, value) pairs that a sequence of env-file lines sets, in
/// order.
pub open spec fn env_pairs_of(lines: Seq<Seq<char>>) -> Seq<(Seq<char>, Seq<char>)>
    decreases lines.len(),
{
    if lines.len() == 0 {
        Seq::empty()
    } else {
        env_pairs_of(lines.drop_last()) + (if line_sets_var(lines.last()) {
            seq![(env_key_of(lines.last()), env_value_of(lines.last()))]
        } else {
            Seq::empty()
        })
    }
}

/// Parse every line of an env file: the (key, value) pairs the file
/// sets, in order, comments and lines without an `=` skipped.
pub fn parse_env_lines(lines: &Vec<String>) -> (r: Vec<(String, String)>)
    ensures
        pair_views(r@) == env_pairs_of(line_views(lines@)),
{
    let mut out: Vec<(String, String)> = Vec::new();
    let mut i: usize = 0;
    while i < lines.len()
        invariant
            i <= lines@.len(),
            pair_views(out@) == env_pairs_of(line_views(lines@.subrange(0, i as int))),
        decreases lines@.len() - i,
    {
        let ghost prefix = lines@.subrange(0, i as int);
        let ghost prefix1 = lines@.subrange(0, i + 1);
        proof {
            assert(line_views(prefix1).drop_last() =~= line_views(prefix));
            assert(line_views(prefix1).last() == lines@[i as int]@);
        }
        match parse_env_line(lines[i].as_str()) {
            Some(kv) => {
                let ghost before = out@;
                out.push(kv);
                proof {
                    assert(pair_views(out@) =~= pair_views(before) + seq![(kv.0@, kv.1@)]);
                }
            },
            None => {},
        }
        i += 1;
    }
    proof {
        assert(lines@.subrange(0, lines@.len() as int) =~= lines@);
    }
    out
}

} // verus!
