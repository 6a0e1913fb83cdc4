//! The reducers: how each event changes the state, and which commands it
//! hands to the runtime.

pub mod navigation;
pub mod container;
pub mod image;
pub mod log;
pub mod events;
pub mod statistics;
pub mod network;
pub mod volume;
pub mod shell;
pub mod explorer;
pub mod mouse;

use vstd::prelude::*;
use crate::text::{chars_of, slice_chars, str_eq, string_of};

verus! {

/// `current` moved by `delta` and kept within `[0, max]`.
pub open spec fn scrolled(current: usize, delta: i32, max: usize) -> usize {
    let v = current + delta;
    if v < 0 { 0 } else if v > max { max } else { v as usize }
}

/// Moves a scroll offset by `delta`, keeping it within `[0, max]`.
pub fn scroll_offset(current: usize, delta: i32, max: usize) -> (r: usize)
    ensures
        r == scrolled(current, delta, max),
{
    if delta >= 0 {
        let d = delta as usize;
        if current > max || max - current < d { max } else { current + d }
    } else {
        let d = (0 - (delta as i64)) as usize;
        if current < d { 0 } else if current - d > max { max } else { current - d }
    }
}

/// The column-picker cursor after a "next" or "prev" request over `count`
/// columns; any other name leaves it where it is.
pub open spec fn column_nav(name: Seq<char>, count: usize, selection: usize) -> usize {
    if count == 0 {
        selection
    } else if name == "next"@ {
        ((selection + 1) % (count as int)) as usize
    } else if name == "prev"@ {
        ((selection + count - 1) % (count as int)) as usize
    } else {
        selection
    }
}

/// Moves the column-picker cursor (see [`column_nav`]).
pub fn handle_column_nav(name: &str, count: usize, selection: &mut usize)
    ensures
        *final(selection) == column_nav(name@, count, *old(selection)),
{
    if count == 0 {
        return;
    }
    let m = *selection % count;
    let ghost sel = *old(selection) as int;
    let ghost c = count as int;
    if str_eq(name, "next") {
        let r = if m + 1 == count { 0 } else { m + 1 };
        proof {
            vstd::arithmetic::div_mod::lemma_add_mod_noop_right(1, sel, c);
            if m + 1 < count {
                vstd::arithmetic::div_mod::lemma_small_mod((m + 1) as nat, count as nat);
            } else {
                vstd::arithmetic::div_mod::lemma_mod_self_0(c);
            }
        }
        *selection = r;
    } else if str_eq(name, "prev") {
        let r = if m == 0 { count - 1 } else { m - 1 };
        proof {
            vstd::arithmetic::div_mod::lemma_add_mod_noop_right(c - 1, sel, c);
            assert(sel + c - 1 == (c - 1) + sel);
            if m == 0 {
                vstd::arithmetic::div_mod::lemma_small_mod((count - 1) as nat, count as nat);
            } else {
                assert((c - 1) + m as int == c + (m - 1));
                vstd::arithmetic::div_mod::lemma_mod_add_multiples_vanish(m - 1, c);
                vstd::arithmetic::div_mod::lemma_small_mod((m - 1) as nat, count as nat);
            }
        }
        *selection = r;
    }
}

/// Index of the last `c` in `s` at or before `i - 1`, or -1.
pub open spec fn last_index_before(s: Seq<char>, c: char, i: int) -> int
    decreases i,
{
    if i <= 0 { -1 } else if s[i - 1] == c { i - 1 } else { last_index_before(s, c, i - 1) }
}

/// The image reference without its tag: the text before the last ':' when
/// that ':' comes after the last '/', else the whole reference.
pub open spec fn image_base(image: Seq<char>) -> Seq<char> {
    let colon = last_index_before(image, ':', image.len() as int);
    let slash = last_index_before(image, '/', image.len() as int);
    if colon > slash { image.subrange(0, colon) } else { image }
}

proof fn lemma_last_index(s: Seq<char>, c: char, i: int)
    requires
        0 <= i <= s.len(),
    ensures
        -1 <= last_index_before(s, c, i) < i,
    decreases i,
{
    if i > 0 && s[i - 1] != c {
        lemma_last_index(s, c, i - 1);
    }
}

/// One past the position of the last `c` in `s`, or 0 when there is none.
fn last_index_exec(s: &Vec<char>, c: char) -> (r: usize)
    ensures
        r == last_index_before(s@, c, s@.len() as int) + 1,
{
    let mut i: usize = s.len();
    while i > 0 && s[i - 1] != c
        invariant
            i <= s@.len(),
            last_index_before(s@, c, i as int) == last_index_before(s@, c, s@.len() as int),
        decreases i,
    {
        i = i - 1;
    }
    i
}

/// The image name without its tag (see [`image_base`]).
pub fn image_base_name(image: &str) -> (r: String)
    ensures
        r@ == image_base(image@),
{
    let cs = chars_of(image);
    let colon = last_index_exec(&cs, ':');
    let slash = last_index_exec(&cs, '/');
    proof {
        lemma_last_index(cs@, ':', cs@.len() as int);
    }
    if colon > slash {
        let head = slice_chars(&cs, 0, colon - 1);
        string_of(head.as_slice())
    } else {
        string_of(cs.as_slice())
    }
}

} // verus!
