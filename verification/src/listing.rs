//! Directory listings: reading the lines of `ls -lap`, permission strings
//! from mode bits, the order in which entries are shown, and the helper
//! container that lists the files of a volume.

use vstd::prelude::*;
use crate::paths::{strip_slash, strip_slash_exec};
use crate::state::ExplorerEntry;
use crate::text::{
    char_is_ws, chars_of, compare_chars, concat, digits_value, is_digit, is_ws, lowercase, matches_at,
    occurs_at, owned, push_char, seq_lt, slice_chars, split_chars, split_seq, starts_with_seq, str_eq,
    string_of, to_lowercase, trim_chars, trim_seq, trim_start_chars, trim_start_seq, all_digits,
    unsigned_digits,
};

verus! {

/// `c` when `mode` has `bit` set, else '-'.
pub open spec fn mode_char(mode: u32, bit: u32, c: char) -> char {
    if mode & bit != 0 { c } else { '-' }
}

/// The ten-character permission string of a file mode, as `ls` prints it:
/// 'd' for a directory, then read, write and execute for owner, group and
/// others.
pub open spec fn mode_string(mode: u32) -> Seq<char> {
    seq![
        mode_char(mode, 0o040000, 'd'),
        mode_char(mode, 0o400, 'r'),
        mode_char(mode, 0o200, 'w'),
        mode_char(mode, 0o100, 'x'),
        mode_char(mode, 0o040, 'r'),
        mode_char(mode, 0o020, 'w'),
        mode_char(mode, 0o010, 'x'),
        mode_char(mode, 0o004, 'r'),
        mode_char(mode, 0o002, 'w'),
        mode_char(mode, 0o001, 'x'),
    ]
}

fn mode_bit(s: &mut String, mode: u32, bit: u32, c: char)
    ensures
        final(s)@ == old(s)@.push(mode_char(mode, bit, c)),
{
    push_char(s, if mode & bit != 0 { c } else { '-' });
}

/// The permission string of a file mode (see [`mode_string`]).
pub fn format_mode(mode: u32) -> (r: String)
    ensures
        r@ == mode_string(mode),
{
    let mut s = String::new();
    mode_bit(&mut s, mode, 0o040000, 'd');
    mode_bit(&mut s, mode, 0o400, 'r');
    mode_bit(&mut s, mode, 0o200, 'w');
    mode_bit(&mut s, mode, 0o100, 'x');
    mode_bit(&mut s, mode, 0o040, 'r');
    mode_bit(&mut s, mode, 0o020, 'w');
    mode_bit(&mut s, mode, 0o010, 'x');
    mode_bit(&mut s, mode, 0o004, 'r');
    mode_bit(&mut s, mode, 0o002, 'w');
    mode_bit(&mut s, mode, 0o001, 'x');
    assert(s@ =~= mode_string(mode));
    s
}

/// The maximal runs of non-white-space characters of `s`, in order
/// (`str::split_whitespace`).
pub open spec fn ws_fields(s: Seq<char>) -> Seq<Seq<char>>
    decreases s.len(),
{
    if s.len() == 0 {
        Seq::empty()
    } else {
        let prev = ws_fields(s.drop_last());
        let c = s.last();
        if is_ws(c) {
            prev
        } else if s.len() >= 2 && !is_ws(s[s.len() - 2]) && prev.len() > 0 {
            prev.update(prev.len() - 1, prev.last().push(c))
        } else {
            prev.push(seq![c])
        }
    }
}

fn ws_fields_exec(s: &Vec<char>) -> (r: Vec<Vec<char>>)
    ensures
        r@.map_values(|p: Vec<char>| p@) == ws_fields(s@),
{
    let mut out: Vec<Vec<char>> = Vec::new();
    let mut i: usize = 0;
    while i < s.len()
        invariant
            i <= s@.len(),
            out@.map_values(|p: Vec<char>| p@) == ws_fields(s@.subrange(0, i as int)),
        decreases s@.len() - i,
    {
        let ghost before = out@.map_values(|p: Vec<char>| p@);
        let ghost sub = s@.subrange(0, i + 1);
        assert(sub.drop_last() =~= s@.subrange(0, i as int));
        assert(sub.last() == s@[i as int]);
        let c = s[i];
        if char_is_ws(c) {
        } else if i >= 1 && !char_is_ws(s[i - 1]) && out.len() > 0 {
            assert(sub[sub.len() - 2] == s@[i - 1]);
            let mut last = out.pop().unwrap();
            last.push(c);
            out.push(last);
            assert(out@.map_values(|p: Vec<char>| p@) =~= before.update(before.len() - 1, before.last().push(c)));
        } else {
            proof {
                if i >= 1 {
                    assert(sub[sub.len() - 2] == s@[i - 1]);
                }
            }
            let mut piece: Vec<char> = Vec::new();
            piece.push(c);
            out.push(piece);
            assert(out@.map_values(|p: Vec<char>| p@) =~= before.push(seq![c]));
        }
        i = i + 1;
    }
    assert(s@.subrange(0, i as int) =~= s@);
    out
}

/// The pieces joined with a space between them.
pub open spec fn join_spaced(parts: Seq<Seq<char>>) -> Seq<char>
    decreases parts.len(),
{
    if parts.len() == 0 {
        Seq::empty()
    } else if parts.len() == 1 {
        parts[0]
    } else {
        join_spaced(parts.drop_last()) + seq![' '] + parts.last()
    }
}

fn join_spaced_exec(parts: &Vec<Vec<char>>, from: usize) -> (r: Vec<char>)
    requires
        from <= parts@.len(),
    ensures
        r@ == join_spaced(parts@.map_values(|p: Vec<char>| p@).subrange(from as int, parts@.len() as int)),
{
    let ghost pv = parts@.map_values(|p: Vec<char>| p@);
    let mut out: Vec<char> = Vec::new();
    let mut i = from;
    while i < parts.len()
        invariant
            from <= i <= parts@.len(),
            pv == parts@.map_values(|p: Vec<char>| p@),
            out@ == join_spaced(pv.subrange(from as int, i as int)),
        decreases parts@.len() - i,
    {
        let ghost sub = pv.subrange(from as int, i + 1);
        assert(sub.drop_last() =~= pv.subrange(from as int, i as int));
        assert(sub.last() == parts@[i as int]@);
        let ghost before = out@;
        if i > from {
            out.push(' ');
        }
        let mut k: usize = 0;
        let ghost mid = out@;
        while k < parts[i].len()
            invariant
                k <= parts@[i as int]@.len(),
                i < parts@.len(),
                out@ == mid + parts@[i as int]@.subrange(0, k as int),
            decreases parts@[i as int]@.len() - k,
        {
            out.push(parts[i][k]);
            assert(out@ =~= mid + parts@[i as int]@.subrange(0, k + 1));
            k = k + 1;
        }
        assert(parts@[i as int]@.subrange(0, k as int) =~= parts@[i as int]@);
        proof {
            if i > from {
                assert(mid =~= before + seq![' ']);
            } else {
                assert(sub.len() == 1);
                assert(before =~= Seq::<char>::empty());
            }
        }
        assert(out@ =~= join_spaced(sub));
        i = i + 1;
    }
    out
}

/// The first position at or after `i` where `needle` occurs in `hay`.
pub open spec fn find_from(hay: Seq<char>, needle: Seq<char>, i: int) -> Option<int>
    decreases hay.len() + 1 - i,
{
    if i < 0 || i > hay.len() || i + needle.len() > hay.len() {
        None
    } else if occurs_at(hay, needle, i) {
        Some(i)
    } else {
        find_from(hay, needle, i + 1)
    }
}

fn find_exec(hay: &Vec<char>, needle: &Vec<char>) -> (r: Option<usize>)
    ensures
        (match r { Some(p) => Some(p as int), None => None }) == find_from(hay@, needle@, 0),
{
    if needle.len() > hay.len() {
        return None;
    }
    let last = hay.len() - needle.len();
    let mut i: usize = 0;
    loop
        invariant
            last + needle@.len() == hay@.len(),
            i <= last,
            find_from(hay@, needle@, i as int) == find_from(hay@, needle@, 0),
        decreases last - i,
    {
        if matches_at(hay, needle, i) {
            return Some(i);
        }
        if i == last {
            assert(find_from(hay@, needle@, i + 1) is None);
            return None;
        }
        i = i + 1;
    }
}

/// The value `str::parse::<i64>` reads from `s`: an optional sign, then at
/// least one ASCII digit, within the range of `i64`; `None` otherwise.
pub open spec fn parse_i64(s: Seq<char>) -> Option<i64> {
    if s.len() > 0 && s[0] == '-' {
        let d = s.drop_first();
        if d.len() > 0 && all_digits(d) && digits_value(d) <= 0x8000_0000_0000_0000 {
            Some((0 - digits_value(d)) as i64)
        } else {
            None
        }
    } else {
        let d = unsigned_digits(s);
        if d.len() > 0 && all_digits(d) && digits_value(d) <= 0x7fff_ffff_ffff_ffff {
            Some(digits_value(d) as i64)
        } else {
            None
        }
    }
}

fn digits_exec(s: &Vec<char>, start: usize, limit: u64) -> (r: Option<u64>)
    requires
        start <= s@.len(),
        9 <= limit <= 0x8000_0000_0000_0000,
    ensures
        ({
            let d = s@.subrange(start as int, s@.len() as int);
            match r {
                Some(v) => d.len() > 0 && all_digits(d) && digits_value(d) <= limit && v == digits_value(d),
                None => !(d.len() > 0 && all_digits(d) && digits_value(d) <= limit),
            }
        }),
{
    let ghost d = s@.subrange(start as int, s@.len() as int);
    if start >= s.len() {
        return None;
    }
    let mut value: u64 = 0;
    let mut i = start;
    while i < s.len()
        invariant
            start <= i <= s@.len(),
            start < s@.len(),
            d == s@.subrange(start as int, s@.len() as int),
            9 <= limit <= 0x8000_0000_0000_0000,
            forall|k: int| start <= k < i ==> is_digit(#[trigger] s@[k]),
            value == digits_value(s@.subrange(start as int, i as int)),
            value <= limit,
        decreases s@.len() - i,
    {
        let c = s[i];
        let ghost p = s@.subrange(start as int, i + 1);
        assert(p.drop_last() =~= s@.subrange(start as int, i as int));
        if !('0' <= c && c <= '9') {
            assert(d[i - start] == c);
            assert(!all_digits(d));
            return None;
        }
        let digit = (c as u32 - '0' as u32) as u64;
        if value > (limit - digit) / 10 {
            proof {
                assert(digits_value(p) == value * 10 + digit);
                assert(value * 10 + digit > limit) by (nonlinear_arith)
                    requires
                        value > (limit - digit) / 10,
                        digit <= 9,
                        digit <= limit || value > 0,
                ;
                assert(d.subrange(0, p.len() as int) =~= p);
                crate::text::lemma_digits_grow(p, d);
            }
            return None;
        }
        assert(value * 10 + digit <= limit) by (nonlinear_arith)
            requires
                value <= (limit - digit) / 10,
                digit <= limit,
        ;
        value = value * 10 + digit;
        i = i + 1;
    }
    assert(s@.subrange(start as int, i as int) =~= d);
    Some(value)
}

/// Reads a signed decimal number (see [`parse_i64`]).
pub fn parse_i64_exec(s: &Vec<char>) -> (r: Option<i64>)
    ensures
        r == parse_i64(s@),
{
    if s.len() > 0 && s[0] == '-' {
        assert(s@.drop_first() =~= s@.subrange(1, s@.len() as int));
        match digits_exec(s, 1, 0x8000_0000_0000_0000) {
            Some(v) => {
                if v == 0x8000_0000_0000_0000 {
                    Some(i64::MIN)
                } else {
                    Some(0 - (v as i64))
                }
            }
            None => None,
        }
    } else {
        let start: usize = if s.len() > 0 && s[0] == '+' { 1 } else { 0 };
        assert(unsigned_digits(s@) =~= s@.subrange(start as int, s@.len() as int));
        match digits_exec(s, start, 0x7fff_ffff_ffff_ffff) {
            Some(v) => Some(v as i64),
            None => None,
        }
    }
}

/// What one line of `ls -lap` lists: its name (without a trailing '/', and
/// for a link without the " -> target" part), whether it is a directory,
/// its size (0 when not a number), its date ("month day time"), and its
/// permission string. The "total" line, blank lines, lines that do not
/// start with a permission string, lines with fewer than eight fields after
/// it, and the "." and ".." entries list nothing.
pub open spec fn ls_entry(line: Seq<char>) -> Option<(Seq<char>, bool, i64, Seq<char>, Seq<char>)> {
    let t = trim_seq(line);
    if t.len() == 0 || starts_with_seq(t, "total "@) {
        None
    } else if !(t[0] == 'd' || t[0] == '-' || t[0] == 'l') {
        None
    } else {
        let pe = match find_from(t, seq![' '], 0) { Some(p) => p, None => t.len() as int };
        let perms = t.subrange(0, pe);
        let rest = trim_start_seq(t.subrange(pe, t.len() as int));
        let f = ws_fields(rest);
        if f.len() < 8 {
            None
        } else {
            let size = match parse_i64(f[3]) { Some(v) => v, None => 0 };
            let modified = f[4] + seq![' '] + f[5] + seq![' '] + f[6];
            let joined = join_spaced(f.subrange(7, f.len() as int));
            let cut = match find_from(joined, " -> "@, 0) { Some(p) => joined.subrange(0, p), None => joined };
            let name = strip_slash(cut);
            if name == "."@ || name == ".."@ {
                None
            } else {
                Some((name, perms[0] == 'd', size, modified, perms))
            }
        }
    }
}

/// An entry as the plain values [`ls_entry`] speaks of.
pub open spec fn entry_view(e: ExplorerEntry) -> (Seq<char>, bool, i64, Seq<char>, Seq<char>) {
    (e.name@, e.is_dir, e.size, e.modified@, e.permissions@)
}

proof fn lemma_find_from(hay: Seq<char>, needle: Seq<char>, i: int)
    requires
        0 <= i,
    ensures
        find_from(hay, needle, i) matches Some(p) ==> i <= p && p + needle.len() <= hay.len() && occurs_at(hay, needle, p),
    decreases hay.len() + 1 - i,
{
    if i <= hay.len() && i + needle.len() <= hay.len() && !occurs_at(hay, needle, i) {
        lemma_find_from(hay, needle, i + 1);
    }
}

/// Reads one line of `ls -lap` (see [`ls_entry`]).
pub fn parse_ls_line(line: &str) -> (r: Option<ExplorerEntry>)
    ensures
        (match r { Some(e) => Some(entry_view(e)), None => None }) == ls_entry(line@),
{
    let cs = chars_of(line);
    let t = trim_chars(&cs);
    let total = chars_of("total ");
    proof {
        reveal_strlit("total ");
    }
    if t.len() == 0 || crate::text::starts_with_chars(&t, &total) {
        return None;
    }
    if !(t[0] == 'd' || t[0] == '-' || t[0] == 'l') {
        return None;
    }
    let mut space: Vec<char> = Vec::new();
    space.push(' ');
    assert(space@ =~= seq![' ']);
    proof {
        lemma_find_from(t@, space@, 0);
    }
    let pe = match find_exec(&t, &space) {
        Some(p) => p,
        None => t.len(),
    };
    proof {
        if pe == 0 {
            assert(occurs_at(t@, space@, 0));
            assert(t@.subrange(0, 1)[0] == ' ');
        }
    }
    assert(pe > 0);
    let perms = slice_chars(&t, 0, pe);
    let tail = slice_chars(&t, pe, t.len());
    let rest = trim_start_chars(&tail);
    let f = ws_fields_exec(&rest);
    let ghost fv = f@.map_values(|p: Vec<char>| p@);
    if f.len() < 8 {
        return None;
    }
    assert(f@[3]@ == fv[3]);
    assert(f@[4]@ == fv[4]);
    assert(f@[5]@ == fv[5]);
    assert(f@[6]@ == fv[6]);
    let size = match parse_i64_exec(&f[3]) {
        Some(v) => v,
        None => 0,
    };
    let mut modified: Vec<char> = f[4].clone();
    modified.push(' ');
    let mut k: usize = 0;
    let ghost m0 = modified@;
    while k < f[5].len()
        invariant
            f@.len() >= 8,
            k <= f@[5]@.len(),
            modified@ == m0 + f@[5]@.subrange(0, k as int),
        decreases f@[5]@.len() - k,
    {
        modified.push(f[5][k]);
        assert(modified@ =~= m0 + f@[5]@.subrange(0, k + 1));
        k = k + 1;
    }
    assert(f@[5]@.subrange(0, k as int) =~= f@[5]@);
    modified.push(' ');
    let ghost m1 = modified@;
    k = 0;
    while k < f[6].len()
        invariant
            f@.len() >= 8,
            k <= f@[6]@.len(),
            modified@ == m1 + f@[6]@.subrange(0, k as int),
        decreases f@[6]@.len() - k,
    {
        modified.push(f[6][k]);
        assert(modified@ =~= m1 + f@[6]@.subrange(0, k + 1));
        k = k + 1;
    }
    assert(f@[6]@.subrange(0, k as int) =~= f@[6]@);
    assert(modified@ =~= fv[4] + seq![' '] + fv[5] + seq![' '] + fv[6]);
    let joined = join_spaced_exec(&f, 7);
    let arrow = chars_of(" -> ");
    proof {
        lemma_find_from(joined@, arrow@, 0);
    }
    let cut = match find_exec(&joined, &arrow) {
        Some(p) => slice_chars(&joined, 0, p),
        None => joined,
    };
    let cut_text = string_of(cut.as_slice());
    let name = strip_slash_exec(cut_text.as_str());
    if str_eq(name.as_str(), ".") || str_eq(name.as_str(), "..") {
        return None;
    }
    let is_dir = perms.len() > 0 && perms[0] == 'd';
    proof {
        reveal_strlit(".");
        reveal_strlit("..");
        reveal_strlit(" -> ");
        assert(cs@ == line@);
        assert(rest@ == trim_start_seq(t@.subrange(pe as int, t@.len() as int)));
        assert(fv.subrange(7, fv.len() as int) == f@.map_values(|p: Vec<char>| p@).subrange(7, f@.len() as int));
    }
    Some(ExplorerEntry {
        name,
        is_dir,
        size,
        modified: string_of(modified.as_slice()),
        permissions: string_of(perms.as_slice()),
    })
}

/// Whether entry `a` is listed before entry `b`: files before directories,
/// then by lowercase name.
pub open spec fn entry_before(a: ExplorerEntry, b: ExplorerEntry) -> bool {
    (!a.is_dir && b.is_dir) || (a.is_dir == b.is_dir && seq_lt(lowercase(a.name@), lowercase(b.name@)))
}

/// Where a stable sort puts `x` among the already sorted `s`.
pub open spec fn entry_insert_pos(s: Seq<ExplorerEntry>, x: ExplorerEntry, i: int) -> int
    decreases s.len() - i,
{
    if i >= s.len() {
        s.len() as int
    } else if entry_before(x, s[i]) {
        i
    } else {
        entry_insert_pos(s, x, i + 1)
    }
}

/// The entries in listing order; entries that compare equal keep their
/// order (the result of a stable sort).
pub open spec fn sorted_entries(s: Seq<ExplorerEntry>) -> Seq<ExplorerEntry>
    decreases s.len(),
{
    if s.len() == 0 {
        s
    } else {
        let prev = sorted_entries(s.drop_last());
        prev.insert(entry_insert_pos(prev, s.last(), 0), s.last())
    }
}

proof fn lemma_entry_insert_pos(s: Seq<ExplorerEntry>, x: ExplorerEntry, i: int)
    requires
        0 <= i <= s.len(),
    ensures
        i <= entry_insert_pos(s, x, i) <= s.len(),
    decreases s.len() - i,
{
    if i < s.len() && !entry_before(x, s[i]) {
        lemma_entry_insert_pos(s, x, i + 1);
    }
}

proof fn lemma_sorted_entries_len(s: Seq<ExplorerEntry>)
    ensures
        sorted_entries(s).len() == s.len(),
    decreases s.len(),
{
    if s.len() > 0 {
        lemma_sorted_entries_len(s.drop_last());
        lemma_entry_insert_pos(sorted_entries(s.drop_last()), s.last(), 0);
    }
}

fn lower_name(e: &ExplorerEntry) -> (r: Vec<char>)
    ensures
        r@ == lowercase(e.name@),
{
    let l = to_lowercase(e.name.as_str());
    chars_of(l.as_str())
}

fn before_exec(a: &ExplorerEntry, b: &ExplorerEntry) -> (r: bool)
    ensures
        r == entry_before(*a, *b),
{
    if !a.is_dir && b.is_dir {
        return true;
    }
    if a.is_dir != b.is_dir {
        return false;
    }
    let la = lower_name(a);
    let lb = lower_name(b);
    compare_chars(&la, &lb) < 0
}

/// Puts entries in listing order (see [`sorted_entries`]).
pub fn sort_entries(items: Vec<ExplorerEntry>) -> (r: Vec<ExplorerEntry>)
    ensures
        r@ == sorted_entries(items@),
{
    let mut out: Vec<ExplorerEntry> = Vec::new();
    let mut i: usize = 0;
    while i < items.len()
        invariant
            i <= items@.len(),
            out@ == sorted_entries(items@.subrange(0, i as int)),
        decreases items@.len() - i,
    {
        let x = items[i].clone();
        let ghost sub = items@.subrange(0, i + 1);
        assert(sub.drop_last() =~= items@.subrange(0, i as int));
        assert(sub.last() == x);
        proof {
            lemma_sorted_entries_len(items@.subrange(0, i as int));
            lemma_entry_insert_pos(out@, x, 0);
        }
        let mut p: usize = 0;
        while p < out.len() && !before_exec(&x, &out[p])
            invariant
                p <= out@.len(),
                entry_insert_pos(out@, x, p as int) == entry_insert_pos(out@, x, 0),
            decreases out@.len() - p,
        {
            p = p + 1;
        }
        out.insert(p, x);
        i = i + 1;
    }
    assert(items@.subrange(0, i as int) =~= items@);
    out
}

/// The entries listed by the lines of `text`, in order.
pub open spec fn listed_entries(lines: Seq<Seq<char>>) -> Seq<(Seq<char>, bool, i64, Seq<char>, Seq<char>)>
    decreases lines.len(),
{
    if lines.len() == 0 {
        Seq::empty()
    } else {
        let prev = listed_entries(lines.drop_last());
        match ls_entry(lines.last()) {
            Some(e) => prev.push(e),
            None => prev,
        }
    }
}

/// Reads the output of `ls -lap`: the entries of its lines, in order (see
/// [`ls_entry`]); the caller sorts them.
pub fn parse_ls_output(text: &str) -> (r: Vec<ExplorerEntry>)
    ensures
        r@.map_values(|e: ExplorerEntry| entry_view(e)) == listed_entries(split_seq(text@, '\n')),
{
    let cs = chars_of(text);
    let lines = split_chars(&cs, '\n');
    let ghost lv = split_seq(text@, '\n');
    let mut out: Vec<ExplorerEntry> = Vec::new();
    let mut i: usize = 0;
    while i < lines.len()
        invariant
            i <= lines@.len(),
            lines@.map_values(|p: Vec<char>| p@) == lv,
            out@.map_values(|e: ExplorerEntry| entry_view(e)) == listed_entries(lv.subrange(0, i as int)),
        decreases lines@.len() - i,
    {
        let ghost before = out@.map_values(|e: ExplorerEntry| entry_view(e));
        assert(lv.subrange(0, i + 1).drop_last() =~= lv.subrange(0, i as int));
        assert(lines@[i as int]@ == lv[i as int]);
        let line = string_of(lines[i].as_slice());
        match parse_ls_line(line.as_str()) {
            Some(e) => {
                out.push(e);
                assert(out@.map_values(|e: ExplorerEntry| entry_view(e)) =~= before.push(entry_view(e)));
            }
            None => {}
        }
        i = i + 1;
    }
    assert(lv.subrange(0, i as int) =~= lv);
    out
}

/// The name of the helper container that serves the files of volume `v`.
pub open spec fn helper_name(v: Seq<char>) -> Seq<char> {
    "omdocker-vol-"@ + v
}

/// The name of the helper container for volume `volume_name`.
pub fn volume_container_name(volume_name: &str) -> (r: String)
    ensures
        r@ == helper_name(volume_name@),
{
    concat("omdocker-vol-", volume_name)
}

/// Where the helper container mounts the volume.
pub open spec fn mount_path() -> Seq<char> {
    "/volume_data"@
}

/// What serving a volume's files needs, given the helper container found
/// under the helper's name (its id and state, if the daemon gave them).
#[derive(Debug, PartialEq, Eq)]
pub enum HelperPlan {
    /// Use the helper with this id, starting it first when asked to.
    Reuse { id: String, start: bool },
    /// Create a new helper and start it.
    Create,
}

/// The plan for a volume's helper: an existing helper with an id is used,
/// and started first unless it is running; otherwise a new one is made.
pub open spec fn helper_plan_for(existing: Option<(Option<String>, Option<String>)>, r: HelperPlan) -> bool {
    match existing {
        Some((Some(id), state)) => r matches HelperPlan::Reuse { id: rid, start } && rid@ == id@
            && start == !(state matches Some(s) && s@ == "running"@),
        _ => r is Create,
    }
}

/// The plan for a volume's helper (see [`helper_plan_for`]).
pub fn helper_plan(existing: Option<(Option<String>, Option<String>)>) -> (r: HelperPlan)
    ensures
        helper_plan_for(existing, r),
{
    match existing {
        Some((Some(id), state)) => {
            let running = match &state {
                Some(s) => str_eq(s.as_str(), "running"),
                None => false,
            };
            HelperPlan::Reuse { id, start: !running }
        },
        _ => HelperPlan::Create,
    }
}

/// The bind that mounts volume `v` in its helper: "v:/volume_data:z".
pub open spec fn helper_bind_spec(v: Seq<char>) -> Seq<char> {
    v + ":"@ + mount_path() + ":z"@
}

/// The bind that mounts a volume in its helper (see [`helper_bind_spec`]).
pub fn helper_bind(volume_name: &str) -> (r: String)
    ensures
        r@ == helper_bind_spec(volume_name@),
{
    let a = concat(volume_name, ":");
    let b = concat(a.as_str(), "/volume_data");
    let r = concat(b.as_str(), ":z");
    proof {
        reveal_strlit("/volume_data");
    }
    r
}

/// `s` without any trailing '/' (`str::trim_end_matches('/')`).
pub open spec fn trim_slashes(s: Seq<char>) -> Seq<char>
    decreases s.len(),
{
    if s.len() > 0 && s.last() == '/' { trim_slashes(s.drop_last()) } else { s }
}

/// The path inside the helper container of path `path` of the volume.
pub open spec fn helper_path(path: Seq<char>) -> Seq<char> {
    if path == seq!['/'] { mount_path() } else { mount_path() + trim_slashes(path) }
}

fn trimmed_end(cs: &Vec<char>) -> (r: usize)
    ensures
        r <= cs@.len(),
        cs@.subrange(0, r as int) == trim_slashes(cs@),
{
    let mut end = cs.len();
    assert(cs@.subrange(0, end as int) =~= cs@);
    while end > 0 && cs[end - 1] == '/'
        invariant
            end <= cs@.len(),
            trim_slashes(cs@.subrange(0, end as int)) == trim_slashes(cs@),
        decreases end,
    {
        assert(cs@.subrange(0, end as int).drop_last() =~= cs@.subrange(0, end - 1));
        end = end - 1;
    }
    end
}

/// The path inside the helper container of `path` in the volume.
pub fn volume_container_path(path: &str) -> (r: String)
    ensures
        r@ == helper_path(path@),
{
    proof {
        reveal_strlit("/");
        assert("/"@ =~= seq!['/']);
    }
    if str_eq(path, "/") {
        return owned("/volume_data");
    }
    let cs = chars_of(path);
    let end = trimmed_end(&cs);
    let head = slice_chars(&cs, 0, end);
    let t = string_of(head.as_slice());
    concat("/volume_data", t.as_str())
}

/// The compose project of a container: the value of its
/// "com.docker.compose.project" label (the first such pair), or empty.
pub open spec fn project_of(labels: Option<Seq<(Seq<char>, Seq<char>)>>) -> Seq<char> {
    match labels {
        Some(l) => match first_label(l, "com.docker.compose.project"@, 0) {
            Some(v) => v,
            None => Seq::empty(),
        },
        None => Seq::empty(),
    }
}

/// The value of the first pair at or after `i` whose key is `key`.
pub open spec fn first_label(l: Seq<(Seq<char>, Seq<char>)>, key: Seq<char>, i: int) -> Option<Seq<char>>
    decreases l.len() - i,
{
    if i < 0 || i >= l.len() {
        None
    } else if l[i].0 == key {
        Some(l[i].1)
    } else {
        first_label(l, key, i + 1)
    }
}

/// A list of labels as plain text pairs.
pub open spec fn labels_view(l: Seq<(String, String)>) -> Seq<(Seq<char>, Seq<char>)> {
    l.map_values(|p: (String, String)| (p.0@, p.1@))
}

/// Optional labels as plain text pairs.
pub open spec fn opt_labels_view(o: Option<Vec<(String, String)>>) -> Option<Seq<(Seq<char>, Seq<char>)>> {
    match o {
        Some(l) => Some(labels_view(l@)),
        None => None,
    }
}

/// The compose project of a container from its labels (see [`project_of`]).
pub fn extract_project(labels: &Option<Vec<(String, String)>>) -> (r: String)
    ensures
        r@ == project_of(opt_labels_view(*labels)),
{
    match labels {
        Some(l) => {
            assert(opt_labels_view(*labels) == Some(labels_view(l@)));
            let ghost lv = labels_view(l@);
            let mut i: usize = 0;
            while i < l.len()
                invariant
                    i <= l@.len(),
                    lv == labels_view(l@),
                    opt_labels_view(*labels) == Some(lv),
                    first_label(lv, "com.docker.compose.project"@, i as int) == first_label(lv, "com.docker.compose.project"@, 0),
                decreases l@.len() - i,
            {
                assert(lv[i as int] == (l@[i as int].0@, l@[i as int].1@));
                if str_eq(l[i].0.as_str(), "com.docker.compose.project") {
                    assert(first_label(lv, "com.docker.compose.project"@, i as int) == Some(lv[i as int].1));
                    assert(project_of(Some(lv)) == lv[i as int].1);
                    let v = l[i].1.clone();
                    assert(v@ == lv[i as int].1);
                    return v;
                }
                i = i + 1;
            }
            String::new()
        }
        None => String::new(),
    }
}

} // verus!

verus! {

/// A port of a container as the daemon lists it: the host address and port
/// it is published on, if any, the port inside the container and the
/// protocol ("tcp", "udp", ...).
#[derive(Debug)]
pub struct PortBinding {
    pub ip: Option<String>,
    pub private_port: u16,
    pub public_port: Option<u16>,
    pub typ: Option<String>,
}

/// How the containers view shows one port: "HOST:PUBLIC->PRIVATE/PROTO"
/// when it is published, else "PRIVATE/PROTO"; the protocol is "tcp" when
/// the daemon gives none.
pub open spec fn port_text(p: PortBinding) -> Seq<char> {
    let typ = match p.typ { Some(t) => t@, None => "tcp"@ };
    match (p.ip, p.public_port) {
        (Some(host), Some(hp)) => host@ + ":"@ + crate::text::decimal(hp as nat) + "->"@
            + crate::text::decimal(p.private_port as nat) + "/"@ + typ,
        _ => crate::text::decimal(p.private_port as nat) + "/"@ + typ,
    }
}

/// The ports of a container, shown one after the other, separated by ", ".
pub open spec fn ports_text(ps: Seq<PortBinding>) -> Seq<char>
    decreases ps.len(),
{
    if ps.len() == 0 {
        Seq::empty()
    } else if ps.len() == 1 {
        port_text(ps[0])
    } else {
        ports_text(ps.drop_last()) + ", "@ + port_text(ps.last())
    }
}

fn push_str(out: &mut String, s: &str)
    ensures
        final(out)@ == old(out)@ + s@,
{
    out.append(s);
}

fn port_text_exec(p: &PortBinding) -> (r: String)
    ensures
        r@ == port_text(*p),
{
    let mut out = String::new();
    let typ: &str = match &p.typ { Some(t) => t.as_str(), None => "tcp" };
    match (&p.ip, p.public_port) {
        (Some(host), Some(hp)) => {
            push_str(&mut out, host.as_str());
            push_str(&mut out, ":");
            crate::text::push_decimal(&mut out, hp as u64);
            push_str(&mut out, "->");
            crate::text::push_decimal(&mut out, p.private_port as u64);
            push_str(&mut out, "/");
            push_str(&mut out, typ);
        }
        _ => {
            crate::text::push_decimal(&mut out, p.private_port as u64);
            push_str(&mut out, "/");
            push_str(&mut out, typ);
        }
    }
    assert(out@ =~= port_text(*p));
    out
}

/// The ports column of the containers view (see [`ports_text`]).
pub fn format_ports(ports: &Vec<PortBinding>) -> (r: String)
    ensures
        r@ == ports_text(ports@),
{
    let mut out = String::new();
    let mut i: usize = 0;
    while i < ports.len()
        invariant
            i <= ports@.len(),
            out@ == ports_text(ports@.subrange(0, i as int)),
        decreases ports@.len() - i,
    {
        let ghost sub = ports@.subrange(0, i + 1);
        assert(sub.drop_last() =~= ports@.subrange(0, i as int));
        if i > 0 {
            push_str(&mut out, ", ");
        }
        let t = port_text_exec(&ports[i]);
        push_str(&mut out, t.as_str());
        i = i + 1;
        assert(out@ =~= ports_text(sub));
    }
    assert(ports@.subrange(0, i as int) =~= ports@);
    out
}

} // verus!

verus! {

/// The health of a container as its status text reports it: "healthy",
/// "unhealthy" or "starting" when the status carries "(healthy)",
/// "(unhealthy)" or "(health: starting)", else empty.
pub open spec fn health_of_status(status: Seq<char>) -> Seq<char> {
    if crate::text::contains_seq(status, "(unhealthy)"@) {
        "unhealthy"@
    } else if crate::text::contains_seq(status, "(healthy)"@) {
        "healthy"@
    } else if crate::text::contains_seq(status, "(health: starting)"@) {
        "starting"@
    } else {
        Seq::empty()
    }
}

/// The health a container's status text reports (see
/// [`health_of_status`]).
pub fn health_of(status: &str) -> (r: String)
    ensures
        r@ == health_of_status(status@),
{
    if crate::text::str_contains(status, "(unhealthy)") {
        owned("unhealthy")
    } else if crate::text::str_contains(status, "(healthy)") {
        owned("healthy")
    } else if crate::text::str_contains(status, "(health: starting)") {
        owned("starting")
    } else {
        String::new()
    }
}

} // verus!
