//! Slash-separated paths as the file explorer builds them: joining a name to
//! a directory, trailing slashes, and the parent of a directory.

use vstd::prelude::*;
use crate::text::{chars_of, concat, owned, slice_chars, str_eq, string_of};

verus! {

/// The root directory.
pub open spec fn root() -> Seq<char> {
    seq!['/']
}

/// Whether `s` ends with '/'.
pub open spec fn ends_with_slash(s: Seq<char>) -> bool {
    s.len() > 0 && s.last() == '/'
}

/// Whether `s` starts with '/'.
pub open spec fn starts_with_slash(s: Seq<char>) -> bool {
    s.len() > 0 && s[0] == '/'
}

/// `s` without one trailing '/', if it has one (`str::strip_suffix('/')`,
/// keeping `s` when there is none).
pub open spec fn strip_slash(s: Seq<char>) -> Seq<char> {
    if ends_with_slash(s) { s.drop_last() } else { s }
}

/// `s` with a trailing '/' added unless it has one.
pub open spec fn with_slash(s: Seq<char>) -> Seq<char> {
    if ends_with_slash(s) { s } else { s.push('/') }
}

/// `name` inside directory `dir`: "/name" in the root, else "dir/name".
pub open spec fn join_root(dir: Seq<char>, name: Seq<char>) -> Seq<char> {
    if dir == root() { root() + name } else { dir + root() + name }
}

/// `name` inside directory `dir`, whose trailing '/' (if any) is dropped;
/// the root and the empty path give "/name".
pub open spec fn join_strip(dir: Seq<char>, name: Seq<char>) -> Seq<char> {
    if dir == root() || dir.len() == 0 { root() + name } else { strip_slash(dir) + root() + name }
}

/// `name` inside directory `dir`: the root and the empty path give "/name",
/// else "dir/name".
pub open spec fn join_plain(dir: Seq<char>, name: Seq<char>) -> Seq<char> {
    if dir == root() || dir.len() == 0 { root() + name } else { dir + root() + name }
}

/// `name` inside directory `dir`, adding a '/' between them only when `dir`
/// does not end with one.
pub open spec fn join_dir(dir: Seq<char>, name: Seq<char>) -> Seq<char> {
    if ends_with_slash(dir) { dir + name } else { dir + root() + name }
}

/// Whether `s` is the root directory.
pub fn is_root(s: &str) -> (r: bool)
    ensures
        r == (s@ == root()),
{
    proof {
        reveal_strlit("/");
        assert("/"@ =~= root());
    }
    str_eq(s, "/")
}

/// Whether `s` ends with '/'.
pub fn ends_with_slash_exec(s: &str) -> (r: bool)
    ensures
        r == ends_with_slash(s@),
{
    let cs = chars_of(s);
    cs.len() > 0 && cs[cs.len() - 1] == '/'
}

/// Whether `s` starts with '/'.
pub fn starts_with_slash_exec(s: &str) -> (r: bool)
    ensures
        r == starts_with_slash(s@),
{
    let cs = chars_of(s);
    cs.len() > 0 && cs[0] == '/'
}

/// The root directory as a new `String`.
pub fn root_path() -> (r: String)
    ensures
        r@ == root(),
{
    proof {
        reveal_strlit("/");
        assert("/"@ =~= root());
    }
    owned("/")
}

/// See [`strip_slash`].
pub fn strip_slash_exec(s: &str) -> (r: String)
    ensures
        r@ == strip_slash(s@),
{
    let cs = chars_of(s);
    if cs.len() > 0 && cs[cs.len() - 1] == '/' {
        let head = slice_chars(&cs, 0, cs.len() - 1);
        assert(head@ =~= s@.drop_last());
        string_of(head.as_slice())
    } else {
        owned(s)
    }
}

/// See [`with_slash`].
pub fn with_slash_exec(s: &str) -> (r: String)
    ensures
        r@ == with_slash(s@),
{
    if ends_with_slash_exec(s) {
        owned(s)
    } else {
        let r = concat(s, "/");
        proof {
            reveal_strlit("/");
            assert(r@ =~= s@.push('/'));
        }
        r
    }
}

/// See [`join_root`].
pub fn join_root_exec(dir: &str, name: &str) -> (r: String)
    ensures
        r@ == join_root(dir@, name@),
{
    proof {
        reveal_strlit("/");
        assert("/"@ =~= root());
    }
    if is_root(dir) {
        concat("/", name)
    } else {
        let a = concat(dir, "/");
        concat(a.as_str(), name)
    }
}

/// See [`join_strip`].
pub fn join_strip_exec(dir: &str, name: &str) -> (r: String)
    ensures
        r@ == join_strip(dir@, name@),
{
    proof {
        reveal_strlit("/");
        assert("/"@ =~= root());
    }
    if is_root(dir) || dir.is_empty() {
        concat("/", name)
    } else {
        let p = strip_slash_exec(dir);
        let a = concat(p.as_str(), "/");
        concat(a.as_str(), name)
    }
}

/// See [`join_plain`].
pub fn join_plain_exec(dir: &str, name: &str) -> (r: String)
    ensures
        r@ == join_plain(dir@, name@),
{
    proof {
        reveal_strlit("/");
        assert("/"@ =~= root());
    }
    if is_root(dir) || dir.is_empty() {
        concat("/", name)
    } else {
        let a = concat(dir, "/");
        concat(a.as_str(), name)
    }
}

/// See [`join_dir`].
pub fn join_dir_exec(dir: &str, name: &str) -> (r: String)
    ensures
        r@ == join_dir(dir@, name@),
{
    proof {
        reveal_strlit("/");
        assert("/"@ =~= root());
    }
    if ends_with_slash_exec(dir) {
        concat(dir, name)
    } else {
        let a = concat(dir, "/");
        concat(a.as_str(), name)
    }
}

/// The non-empty pieces of `s` between '/' characters, in order.
pub open spec fn segments(s: Seq<char>) -> Seq<Seq<char>>
    decreases s.len(),
{
    if s.len() == 0 {
        Seq::empty()
    } else {
        let prev = segments(s.drop_last());
        let c = s.last();
        if c == '/' {
            prev
        } else if s.len() >= 2 && s[s.len() - 2] != '/' && prev.len() > 0 {
            prev.update(prev.len() - 1, prev.last().push(c))
        } else {
            prev.push(seq![c])
        }
    }
}

/// The pieces joined with '/' between them.
pub open spec fn join_segments(parts: Seq<Seq<char>>) -> Seq<char>
    decreases parts.len(),
{
    if parts.len() == 0 {
        Seq::empty()
    } else if parts.len() == 1 {
        parts[0]
    } else {
        join_segments(parts.drop_last()) + root() + parts.last()
    }
}

/// The parent of a container directory (written with a trailing '/'): its
/// segments but the last, as "/a/b/"; "/" when one segment or none is left.
pub open spec fn container_parent(path: Seq<char>) -> Seq<char> {
    let parts = segments(strip_slash(path));
    if parts.len() <= 1 { root() } else { root() + join_segments(parts.drop_last()) + root() }
}

fn segments_exec(s: &Vec<char>) -> (r: Vec<Vec<char>>)
    ensures
        r@.map_values(|p: Vec<char>| p@) == segments(s@),
{
    let mut out: Vec<Vec<char>> = Vec::new();
    let mut i: usize = 0;
    while i < s.len()
        invariant
            i <= s@.len(),
            out@.map_values(|p: Vec<char>| p@) == segments(s@.subrange(0, i as int)),
        decreases s@.len() - i,
    {
        let ghost before = out@.map_values(|p: Vec<char>| p@);
        let ghost sub = s@.subrange(0, i + 1);
        assert(sub.drop_last() =~= s@.subrange(0, i as int));
        assert(sub.last() == s@[i as int]);
        let c = s[i];
        if c == '/' {
        } else if i >= 1 && s[i - 1] != '/' && out.len() > 0 {
            assert(sub[sub.len() - 2] == s@[i - 1]);
            let mut last = out.pop().unwrap();
            last.push(c);
            out.push(last);
            assert(out@.map_values(|p: Vec<char>| p@) =~= before.update(before.len() - 1, before.last().push(c)));
        } else {
            proof {
                if i >= 1 {
                    assert(sub[sub.len() - 2] == s@[i - 1]);
                }
            }
            let mut piece: Vec<char> = Vec::new();
            piece.push(c);
            out.push(piece);
            assert(out@.map_values(|p: Vec<char>| p@) =~= before.push(seq![c]));
        }
        i = i + 1;
    }
    assert(s@.subrange(0, i as int) =~= s@);
    out
}

fn join_segments_exec(parts: &Vec<Vec<char>>, n: usize) -> (r: String)
    requires
        n <= parts@.len(),
    ensures
        r@ == join_segments(parts@.map_values(|p: Vec<char>| p@).subrange(0, n as int)),
{
    let ghost pv = parts@.map_values(|p: Vec<char>| p@);
    let mut out = String::new();
    let mut i: usize = 0;
    while i < n
        invariant
            i <= n <= parts@.len(),
            pv == parts@.map_values(|p: Vec<char>| p@),
            out@ == join_segments(pv.subrange(0, i as int)),
        decreases n - i,
    {
        let ghost sub = pv.subrange(0, i + 1);
        assert(sub.drop_last() =~= pv.subrange(0, i as int));
        assert(sub.last() == parts@[i as int]@);
        let piece = string_of(parts[i].as_slice());
        if i == 0 {
            out = piece;
            assert(sub.len() == 1);
        } else {
            let a = concat(out.as_str(), "/");
            out = concat(a.as_str(), piece.as_str());
            proof {
                reveal_strlit("/");
                assert("/"@ =~= root());
            }
        }
        i = i + 1;
    }
    out
}

/// See [`container_parent`].
pub fn container_parent_exec(path: &str) -> (r: String)
    ensures
        r@ == container_parent(path@),
{
    let cleaned = strip_slash_exec(path);
    let cs = chars_of(cleaned.as_str());
    let parts = segments_exec(&cs);
    let ghost pv = parts@.map_values(|p: Vec<char>| p@);
    if parts.len() <= 1 {
        root_path()
    } else {
        let inner = join_segments_exec(&parts, parts.len() - 1);
        assert(pv.subrange(0, pv.len() - 1) =~= pv.drop_last());
        let a = concat("/", inner.as_str());
        let r = concat(a.as_str(), "/");
        proof {
            reveal_strlit("/");
            assert("/"@ =~= root());
        }
        r
    }
}

/// What `Path::parent` returns for a path, as text: the path without its
/// final component, or `None` when the path ends in a root or is empty.
pub uninterp spec fn path_parent(path: Seq<char>) -> Option<Seq<char>>;

/// Whether `n` is a plain path component: a name that is neither "." nor
/// "..", and without a backslash (a separator on some targets).
pub open spec fn is_component(n: Seq<char>) -> bool {
    &&& is_name(n)
    &&& n != "."@
    &&& n != ".."@
    &&& forall|i: int| 0 <= i < n.len() ==> n[i] != '\\'
}

/// Whether `d` is an absolute directory written plainly: "/" or "/a/b",
/// its segments plain components between single slashes, with no slash at
/// the end.
pub open spec fn is_host_dir(d: Seq<char>) -> bool {
    ||| d == root()
    ||| {
        &&& segments(d).len() > 0
        &&& d == root() + join_segments(segments(d))
        &&& forall|i: int| 0 <= i < segments(d).len() ==> is_component(#[trigger] segments(d)[i])
    }
}

/// `std::path::Path::parent`, read back as text. The contract names the
/// result; of the component rules of `std::path` it states only the one
/// its documentation shows by example: a plain absolute directory with one
/// more plain component has that directory as its parent ("/foo/bar" gives
/// "/foo", "/foo" gives "/").
#[verifier::external_body]
pub(crate) fn parent_of(path: &str) -> (r: Option<String>)
    ensures
        (match r { Some(p) => Some(p@), None => None }) == path_parent(path@),
        forall|d: Seq<char>, n: Seq<char>|
            is_host_dir(d) && is_component(n) && path@ == #[trigger] join_root(d, n) ==> r is Some && r->0@ == d,
{
    std::path::Path::new(path).parent().and_then(|p| p.to_str()).map(|s| s.to_string())
}

/// Whether `path_parent` of `path` is the directory that `path` was made
/// from, whenever it was made from a plain directory and a plain component
/// (what [`parent_of`] states of each call).
pub open spec fn parent_of_joined(path: Seq<char>) -> bool {
    forall|d: Seq<char>, n: Seq<char>|
        is_host_dir(d) && is_component(n) && path == #[trigger] join_root(d, n) ==> path_parent(path) == Some(d)
}

} // verus!

verus! {

/// Whether `s` is a plain file name: not empty and without '/'.
pub open spec fn is_name(s: Seq<char>) -> bool {
    s.len() > 0 && forall|i: int| 0 <= i < s.len() ==> s[i] != '/'
}

/// Whether `p` is a directory of the container panel as the panel writes
/// it: "/" or "/a/b/", its segments between single slashes.
pub open spec fn is_dir_path(p: Seq<char>) -> bool {
    p == root() || (segments(p).len() > 0 && p == root() + join_segments(segments(p)) + root())
}

/// Appending a name to a path that ends with '/' (or is empty) adds the
/// name as one more segment.
proof fn lemma_segments_append(p: Seq<char>, name: Seq<char>)
    requires
        p.len() == 0 || p.last() == '/',
        is_name(name),
    ensures
        segments(p + name) == segments(p).push(name),
    decreases name.len(),
{
    if name.len() == 1 {
        assert((p + name).drop_last() =~= p);
        assert(seq![name[0]] =~= name);
    } else {
        let init = name.drop_last();
        lemma_segments_append(p, init);
        assert((p + name).drop_last() =~= p + init);
        assert((p + name)[(p + name).len() - 2] == init.last());
        assert(init.push(name.last()) =~= name);
    }
}

/// Entering a directory of the container panel and going up again comes
/// back to where the panel was.
pub proof fn lemma_enter_then_up(p: Seq<char>, name: Seq<char>)
    requires
        is_dir_path(p),
        is_name(name),
    ensures
        container_parent(join_dir(p, name).push('/')) == p,
{
    assert(ends_with_slash(p));
    let joined = join_dir(p, name);
    assert(joined == p + name);
    assert(strip_slash(joined.push('/')) =~= joined);
    lemma_segments_append(p, name);
    let parts = segments(p).push(name);
    assert(parts.drop_last() =~= segments(p));
    if p == root() {
        assert(root().drop_last() =~= Seq::<char>::empty());
        assert(segments(Seq::<char>::empty()) =~= Seq::<Seq<char>>::empty());
        assert(root().last() == '/');
        assert(segments(root()) =~= Seq::<Seq<char>>::empty());
        assert(parts.len() == 1);
    } else {
        assert(parts.len() >= 2);
        assert(container_parent(joined.push('/')) == root() + join_segments(segments(p)) + root());
    }
}

} // verus!
