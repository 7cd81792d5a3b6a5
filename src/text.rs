use itertools::Itertools;
use vstd::prelude::*;

verus! {

/// `parts` in order, with `sep` between neighbours.
pub open spec fn joined(parts: Seq<Seq<char>>, sep: Seq<char>) -> Seq<char>
    decreases parts.len(),
{
    if parts.len() == 0 {
        Seq::empty()
    } else if parts.len() == 1 {
        parts[0]
    } else {
        joined(parts.drop_last(), sep) + sep + parts.last()
    }
}

/// The views of a sequence of strings.
pub open spec fn string_views(s: Seq<String>) -> Seq<Seq<char>> {
    s.map_values(|x: String| x@)
}

/// Relies on itertools' `Itertools::join`: the first part, then `sep` and
/// the next part for each further one; nothing for no parts.
#[verifier::external_body]
pub(crate) fn join_parts(parts: &Vec<String>, sep: &str) -> (r: String)
    ensures
        r@ == joined(string_views(parts@), sep@),
{
    parts.iter().join(sep)
}

/// A line without the `\r` that ends it, if one does.
pub open spec fn strip_cr(line: Seq<char>) -> Seq<char> {
    if line.len() > 0 && line.last() == '\r' {
        line.drop_last()
    } else {
        line
    }
}

/// Reading `s` from the left: the lines that a `\n` has ended, and the
/// characters since the last `\n`.
pub open spec fn line_split(s: Seq<char>) -> (Seq<Seq<char>>, Seq<char>)
    decreases s.len(),
{
    if s.len() == 0 {
        (Seq::empty(), Seq::empty())
    } else {
        let (done, current) = line_split(s.drop_last());
        if s.last() == '\n' {
            (done.push(strip_cr(current)), Seq::empty())
        } else {
            (done, current.push(s.last()))
        }
    }
}

/// The lines of `s`: split at `\n`, each without its ending `\r\n` or `\n`;
/// a last line without `\n` counts where it is not empty.
pub open spec fn lines(s: Seq<char>) -> Seq<Seq<char>> {
    let (done, current) = line_split(s);
    if current.len() == 0 {
        done
    } else {
        done.push(current)
    }
}

proof fn lemma_line_split_tail(s: Seq<char>, start: int, i: int)
    requires
        0 <= start <= i < s.len(),
        line_split(s.take(i)).1 == s.subrange(start, i),
        s[i] != '\n',
    ensures
        line_split(s.take(i + 1)) == (line_split(s.take(i)).0, s.subrange(start, i + 1)),
{
    assert(s.take(i + 1).drop_last() =~= s.take(i));
    assert(s.subrange(start, i + 1) =~= s.subrange(start, i).push(s[i]));
}

/// The lines of `text` (see `lines`).
pub fn split_lines(text: &str) -> (r: Vec<String>)
    ensures
        string_views(r@) == lines(text@),
{
    let n = text.unicode_len();
    let mut r: Vec<String> = Vec::new();
    let mut start: usize = 0;
    let mut i: usize = 0;
    proof {
        assert(text@.take(0) =~= Seq::<char>::empty());
    }
    while i < n
        invariant
            n == text@.len(),
            0 <= start <= i <= n,
            line_split(text@.take(i as int)) == (string_views(r@), text@.subrange(
                start as int,
                i as int,
            )),
        decreases n - i,
    {
        let c = text.get_char(i);
        if c == '\n' {
            let ghost current = text@.subrange(start as int, i as int);
            let end = if i > start && text.get_char(i - 1) == '\r' {
                i - 1
            } else {
                i
            };
            let line = String::from_str(text.substring_char(start, end));
            let ghost prev = r@;
            r.push(line);
            proof {
                assert(text@.take(i + 1).drop_last() =~= text@.take(i as int));
                assert(line@ =~= strip_cr(current));
                assert(string_views(r@) =~= string_views(prev).push(line@));
                assert(text@.subrange((i + 1) as int, (i + 1) as int) =~= Seq::<char>::empty());
            }
            start = i + 1;
        } else {
            proof {
                lemma_line_split_tail(text@, start as int, i as int);
            }
        }
        i = i + 1;
    }
    proof {
        assert(text@.take(n as int) =~= text@);
    }
    if start < n {
        let line = String::from_str(text.substring_char(start, n));
        let ghost prev = r@;
        r.push(line);
        proof {
            assert(string_views(r@) =~= string_views(prev).push(line@));
        }
    }
    r
}

} // verus!
