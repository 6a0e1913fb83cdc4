//! Marking the matches of a log search in a line: every place where the
//! lowercase line continues with the lowercase search text.

use vstd::prelude::*;
use crate::text::{chars_of, lowercase, slice_chars, string_of, to_lowercase};

verus! {

/// How a piece of a searched line is shown.
#[derive(Clone, Copy, Debug, PartialEq, Eq, Structural)]
pub enum Highlight {
    /// Text between or after matches.
    Plain,
    /// A match of the search.
    Match,
    /// An empty line, which has nothing to show.
    Empty,
}

/// Whether `tl` continues with `sl` at position `i`.
pub open spec fn matches_at(tl: Seq<char>, sl: Seq<char>, i: int) -> bool {
    i + sl.len() <= tl.len() && tl.subrange(i, i + sl.len()) == sl
}

/// The pieces of `t` from position `i` on, the previous match having ended
/// at `last`. A match at `i` covers `n` characters of `t` (the length of
/// the search as typed), cut at the end of the line; the text before it
/// since `last` comes first. Matches are looked for only where the
/// lowercase line has as many characters as the line.
pub open spec fn pieces_from(t: Seq<char>, tl: Seq<char>, sl: Seq<char>, n: nat, i: int, last: int) -> Seq<(Seq<char>, Highlight)>
    decreases t.len() - i,
{
    if i >= t.len() {
        if 0 <= last < t.len() { seq![(t.subrange(last, t.len() as int), Highlight::Plain)] } else { Seq::empty() }
    } else if tl.len() == t.len() && matches_at(tl, sl, i) {
        let end = if i + n <= t.len() { i + n } else { t.len() as int };
        (if last < i { seq![(t.subrange(last, i), Highlight::Plain)] } else { Seq::empty() })
            + seq![(t.subrange(i, end), Highlight::Match)]
            + pieces_from(t, tl, sl, n, i + 1, end)
    } else {
        pieces_from(t, tl, sl, n, i + 1, last)
    }
}

/// The pieces of line `t` searched for `s`; an empty line is one empty
/// piece of its own kind.
pub open spec fn highlighted(t: Seq<char>, s: Seq<char>) -> Seq<(Seq<char>, Highlight)> {
    let p = pieces_from(t, lowercase(t), lowercase(s), s.len(), 0, 0);
    if p.len() == 0 { seq![(t, Highlight::Empty)] } else { p }
}

/// A piece as text and kind.
pub open spec fn piece_view(p: (String, Highlight)) -> (Seq<char>, Highlight) {
    (p.0@, p.1)
}

fn matches_at_exec(tl: &Vec<char>, sl: &Vec<char>, i: usize) -> (r: bool)
    ensures
        r == matches_at(tl@, sl@, i as int),
{
    if sl.len() > tl.len() || i > tl.len() - sl.len() {
        return false;
    }
    let mut k: usize = 0;
    while k < sl.len()
        invariant
            k <= sl@.len(),
            i + sl@.len() <= tl@.len(),
            i + sl.len() <= tl.len(),
            forall|j: int| 0 <= j < k ==> tl@[i + j] == sl@[j],
        decreases sl@.len() - k,
    {
        if tl[i + k] != sl[k] {
            assert(tl@.subrange(i as int, i + sl@.len())[k as int] != sl@[k as int]);
            return false;
        }
        k = k + 1;
    }
    assert(tl@.subrange(i as int, i + sl@.len()) =~= sl@);
    true
}

/// The pieces of a log line searched for `search` (see [`highlighted`]).
pub fn highlight_pieces(text: &str, search: &str) -> (r: Vec<(String, Highlight)>)
    ensures
        r@.map_values(|p: (String, Highlight)| piece_view(p)) == highlighted(text@, search@),
{
    let t = chars_of(text);
    let tl = chars_of(to_lowercase(text).as_str());
    let sl = chars_of(to_lowercase(search).as_str());
    let n: usize = chars_of(search).len();
    let ghost whole = pieces_from(t@, tl@, sl@, n as nat, 0, 0);
    let mut out: Vec<(String, Highlight)> = Vec::new();
    let mut last: usize = 0;
    let mut i: usize = 0;
    while i < t.len()
        invariant
            i <= t@.len(),
            last <= t@.len(),
            out@.map_values(|p: (String, Highlight)| piece_view(p)) + pieces_from(t@, tl@, sl@, n as nat, i as int, last as int) == whole,
        decreases t@.len() - i,
    {
        let ghost before = out@.map_values(|p: (String, Highlight)| piece_view(p));
        if tl.len() == t.len() && matches_at_exec(&tl, &sl, i) {
            let end: usize = if n <= t.len() - i { i + n } else { t.len() };
            if last < i {
                let s = string_of(slice_chars(&t, last, i).as_slice());
                out.push((s, Highlight::Plain));
            }
            let m = string_of(slice_chars(&t, i, end).as_slice());
            out.push((m, Highlight::Match));
            let ghost front = if (last as int) < (i as int) { seq![(t@.subrange(last as int, i as int), Highlight::Plain)] } else { Seq::<(Seq<char>, Highlight)>::empty() };
            assert(out@.map_values(|p: (String, Highlight)| piece_view(p)) =~= before + front + seq![(t@.subrange(i as int, end as int), Highlight::Match)]);
            last = end;
        }
        i = i + 1;
    }
    if last < t.len() {
        let s = string_of(slice_chars(&t, last, t.len()).as_slice());
        out.push((s, Highlight::Plain));
    }
    assert(out@.map_values(|p: (String, Highlight)| piece_view(p)) =~= whole);
    if out.len() == 0 {
        out.push((string_of(t.as_slice()), Highlight::Empty));
        assert(out@.map_values(|p: (String, Highlight)| piece_view(p)) =~= seq![(text@, Highlight::Empty)]);
    }
    out
}

} // verus!
