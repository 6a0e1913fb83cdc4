//! Reading the daemon's answers and writing its requests: container names,
//! image tags, and the options of the run form as the create request needs
//! them (one item per line, memory limits, port bindings).

use vstd::prelude::*;
use crate::details::trim_leading_slashes;
use crate::listing::{parse_i64, parse_i64_exec};
use crate::text::{chars_of, slice_chars, split_chars, split_seq, string_of, trim_chars, trim_seq};

verus! {

/// The name a container is listed under: its first name without the
/// leading '/', or empty when it has none.
pub open spec fn first_name(names: Option<Vec<String>>) -> Seq<char> {
    match names {
        Some(n) => if n@.len() > 0 { trim_leading_slashes(n@[0]@) } else { Seq::empty() },
        None => Seq::empty(),
    }
}

/// The name a container is listed under (see [`first_name`]).
pub fn container_name(names: &Option<Vec<String>>) -> (r: String)
    ensures
        r@ == first_name(*names),
{
    match names {
        Some(n) => {
            if n.len() > 0 {
                crate::details::trim_slashes(n[0].as_str())
            } else {
                String::new()
            }
        },
        None => String::new(),
    }
}

/// Where the last ':' of `s` is, looking at positions before `end`.
pub open spec fn last_colon(s: Seq<char>, end: int) -> Option<int>
    decreases end,
{
    if end <= 0 {
        None
    } else if s[end - 1] == ':' {
        Some(end - 1)
    } else {
        last_colon(s, end - 1)
    }
}

/// An image reference split at its last ':' into repository and tag; a
/// reference without ':' is all repository.
pub open spec fn repo_and_tag(s: Seq<char>) -> (Seq<char>, Seq<char>) {
    match last_colon(s, s.len() as int) {
        Some(i) => (s.subrange(0, i), s.subrange(i + 1, s.len() as int)),
        None => (s, Seq::empty()),
    }
}

proof fn lemma_last_colon(s: Seq<char>, end: int)
    requires
        end <= s.len(),
    ensures
        last_colon(s, end) matches Some(i) ==> 0 <= i < end && s[i] == ':',
    decreases end,
{
    if end > 0 && s[end - 1] != ':' {
        lemma_last_colon(s, end - 1);
    }
}

/// The repository and tag of an image reference (see [`repo_and_tag`]).
pub fn split_repo_tag(reference: &str) -> (r: (String, String))
    ensures
        (r.0@, r.1@) == repo_and_tag(reference@),
{
    let cs = chars_of(reference);
    let mut end = cs.len();
    while end > 0 && cs[end - 1] != ':'
        invariant
            end <= cs@.len(),
            cs@ == reference@,
            last_colon(cs@, end as int) == last_colon(cs@, cs@.len() as int),
        decreases end,
    {
        end = end - 1;
    }
    proof {
        lemma_last_colon(cs@, cs@.len() as int);
    }
    if end == 0 {
        (string_of(cs.as_slice()), String::new())
    } else {
        let repo = slice_chars(&cs, 0, end - 1);
        let tag = slice_chars(&cs, end, cs.len());
        (string_of(repo.as_slice()), string_of(tag.as_slice()))
    }
}

/// The non-empty trimmed lines of `pieces`, in order.
pub open spec fn kept_lines(pieces: Seq<Seq<char>>) -> Seq<Seq<char>>
    decreases pieces.len(),
{
    if pieces.len() == 0 {
        Seq::empty()
    } else {
        let prev = kept_lines(pieces.drop_last());
        let t = trim_seq(pieces.last());
        if t.len() > 0 { prev.push(t) } else { prev }
    }
}

/// The items of a multi-line run-form field: each line trimmed, empty lines
/// left out.
pub open spec fn option_items(text: Seq<char>) -> Seq<Seq<char>> {
    kept_lines(split_seq(text, '\n'))
}

/// The items of a multi-line run-form field (see [`option_items`]).
pub fn option_lines(text: &str) -> (r: Vec<String>)
    ensures
        r@.map_values(|s: String| s@) == option_items(text@),
{
    let cs = chars_of(text);
    let pieces = split_chars(&cs, '\n');
    let ghost pv = pieces@.map_values(|p: Vec<char>| p@);
    let mut out: Vec<String> = Vec::new();
    let mut i: usize = 0;
    while i < pieces.len()
        invariant
            i <= pieces@.len(),
            pv == pieces@.map_values(|p: Vec<char>| p@),
            pv == split_seq(text@, '\n'),
            out@.map_values(|s: String| s@) == kept_lines(pv.subrange(0, i as int)),
        decreases pieces@.len() - i,
    {
        let ghost before = out@.map_values(|s: String| s@);
        assert(pv.subrange(0, i + 1).drop_last() =~= pv.subrange(0, i as int));
        assert(pv.subrange(0, i + 1).last() == pieces@[i as int]@);
        let t = trim_chars(&pieces[i]);
        if t.len() > 0 {
            out.push(string_of(t.as_slice()));
            assert(out@.map_values(|s: String| s@) =~= before.push(t@));
        }
        i = i + 1;
    }
    assert(pv.subrange(0, i as int) =~= pv);
    out
}

/// The bytes of a memory limit: a whole number, optionally followed by 'k',
/// 'm' or 'g' (either case) for KiB, MiB or GiB, around which blanks are
/// ignored; `None` for an empty, malformed or too large limit.
pub open spec fn memory_limit(text: Seq<char>) -> Option<i64> {
    let t = trim_seq(text);
    if t.len() == 0 {
        None
    } else {
        let c = t.last();
        let mult: int = if c == 'k' || c == 'K' { 1024int } else if c == 'm' || c == 'M' { 1048576int } else if c == 'g' || c == 'G' { 1073741824int } else { 1int };
        let digits = if mult > 1 { trim_seq(t.drop_last()) } else { t };
        match parse_i64(digits) {
            Some(n) => if i64::MIN <= n * mult <= i64::MAX { Some((n * mult) as i64) } else { None },
            None => None,
        }
    }
}

/// The bytes of a memory limit (see [`memory_limit`]).
pub fn memory_limit_bytes(text: &str) -> (r: Option<i64>)
    ensures
        r == memory_limit(text@),
{
    let cs = chars_of(text);
    let t = trim_chars(&cs);
    if t.len() == 0 {
        return None;
    }
    let c = t[t.len() - 1];
    let mult: i64 = if c == 'k' || c == 'K' { 1024 } else if c == 'm' || c == 'M' { 1024 * 1024 } else if c == 'g' || c == 'G' { 1024 * 1024 * 1024 } else { 1 };
    let digits = if mult > 1 {
        let head = slice_chars(&t, 0, t.len() - 1);
        assert(head@ =~= t@.drop_last());
        trim_chars(&head)
    } else {
        t
    };
    match parse_i64_exec(&digits) {
        Some(n) => n.checked_mul(mult),
        None => None,
    }
}

/// A port binding of the run form: "CONTAINER", "HOST:CONTAINER" or
/// "IP:HOST:CONTAINER".
#[derive(Debug)]
pub struct PortSpec {
    pub container: String,
    pub host: Option<String>,
    pub host_ip: Option<String>,
}

/// The parts of a port binding line split at ':': the container port is
/// the last part (trimmed), the host port the one before it, and the host
/// address the first when there are three parts.
pub open spec fn port_spec(line: Seq<char>, r: PortSpec) -> bool {
    let parts = split_seq(line, ':');
    let n = parts.len() as int;
    &&& r.container@ == trim_seq(parts[n - 1])
    &&& (if n >= 2 { r.host matches Some(h) && h@ == parts[n - 2] } else { r.host is None })
    &&& (if n == 3 { r.host_ip matches Some(a) && a@ == parts[0] } else { r.host_ip is None })
}

/// The parts of a port binding line (see [`port_spec`]).
pub fn parse_port_spec(line: &str) -> (r: PortSpec)
    ensures
        port_spec(line@, r),
{
    let cs = chars_of(line);
    let parts = split_chars(&cs, ':');
    let ghost pv = parts@.map_values(|p: Vec<char>| p@);
    assert(pv =~= split_seq(line@, ':'));
    let n = parts.len();
    assert(pv[n - 1] == parts@[n - 1]@);
    let container = string_of(trim_chars(&parts[n - 1]).as_slice());
    let host = if n >= 2 {
        assert(pv[n - 2] == parts@[n - 2]@);
        Some(string_of(parts[n - 2].as_slice()))
    } else {
        None
    };
    let host_ip = if n == 3 {
        assert(pv[0] == parts@[0]@);
        Some(string_of(parts[0].as_slice()))
    } else {
        None
    };
    PortSpec { container, host, host_ip }
}

/// Where the first '=' of `s` is, if it has one.
pub open spec fn first_equals(s: Seq<char>) -> Option<int> {
    if exists|i: int| 0 <= i < s.len() && s[i] == '=' {
        Some(choose|i: int| 0 <= i < s.len() && s[i] == '=' && forall|j: int| 0 <= j < i ==> s[j] != '=')
    } else {
        None
    }
}

/// A label line "KEY=value" split at its first '='; `None` for a line
/// without '='.
pub open spec fn label_of(line: Seq<char>) -> Option<(Seq<char>, Seq<char>)> {
    match first_equals(line) {
        Some(i) => Some((line.subrange(0, i), line.subrange(i + 1, line.len() as int))),
        None => None,
    }
}

/// The key and value of a label line (see [`label_of`]).
pub fn label_pair(line: &str) -> (r: Option<(String, String)>)
    ensures
        (match r { Some((k, v)) => Some((k@, v@)), None => None }) == label_of(line@),
{
    let cs = chars_of(line);
    let mut i: usize = 0;
    while i < cs.len() && cs[i] != '='
        invariant
            i <= cs@.len(),
            cs@ == line@,
            forall|j: int| 0 <= j < i ==> cs@[j] != '=',
        decreases cs@.len() - i,
    {
        i = i + 1;
    }
    if i < cs.len() {
        proof {
            let w = choose|k: int| 0 <= k < cs@.len() && cs@[k] == '=' && forall|j: int| 0 <= j < k ==> cs@[j] != '=';
            assert(0 <= i < cs@.len() && cs@[i as int] == '=' && forall|j: int| 0 <= j < i ==> cs@[j] != '=');
            if w < i {
                assert(cs@[w] != '=');
            }
            if w > i {
                assert(cs@[i as int] != '=');
            }
            assert(w == i);
        }
        let k = slice_chars(&cs, 0, i);
        let v = slice_chars(&cs, i + 1, cs.len());
        Some((string_of(k.as_slice()), string_of(v.as_slice())))
    } else {
        None
    }
}

} // verus!
