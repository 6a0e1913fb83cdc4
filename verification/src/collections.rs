//! Small collections keyed by text: a set of names that remembers the order
//! in which names were added, and a map from names to shell settings.

use vstd::prelude::*;
use crate::config::{texts, ContainerShellConfig};
use crate::text::str_eq;

verus! {

broadcast use Seq::lemma_filter_push;

/// A set of names (container ids, volume names, file names), kept in the
/// order in which they were added.
#[derive(Debug)]
pub struct StringSet {
    items: Vec<String>,
}

impl View for StringSet {
    type V = Seq<Seq<char>>;

    closed spec fn view(&self) -> Seq<Seq<char>> {
        texts(self.items@)
    }
}

/// `s` without any occurrence of `x`.
pub open spec fn without(s: Seq<Seq<char>>, x: Seq<char>) -> Seq<Seq<char>> {
    s.filter(|y: Seq<char>| y != x)
}

/// `s` with `x` added at the end, unless it is already there.
pub open spec fn with(s: Seq<Seq<char>>, x: Seq<char>) -> Seq<Seq<char>> {
    if s.contains(x) { s } else { s.push(x) }
}

impl StringSet {
    pub fn new() -> (r: Self)
        ensures
            r@ == Seq::<Seq<char>>::empty(),
    {
        let r = StringSet { items: Vec::new() };
        assert(r@ =~= Seq::<Seq<char>>::empty());
        r
    }

    /// The position of `s` in the set, if it is there.
    fn position(&self, s: &str) -> (r: Option<usize>)
        ensures
            r matches Some(i) ==> i < self@.len() && self@[i as int] == s@,
            r is None ==> !self@.contains(s@),
    {
        let mut i: usize = 0;
        while i < self.items.len()
            invariant
                i <= self.items@.len(),
                forall|j: int| 0 <= j < i ==> self.items@[j]@ != s@,
            decreases self.items@.len() - i,
        {
            if str_eq(self.items[i].as_str(), s) {
                return Some(i);
            }
            i = i + 1;
        }
        assert forall|j: int| 0 <= j < self@.len() implies self@[j] != s@ by {
            assert(self@[j] == self.items@[j]@);
        }
        None
    }

    pub fn contains(&self, s: &str) -> (r: bool)
        ensures
            r == self@.contains(s@),
    {
        self.position(s).is_some()
    }

    /// Adds `s` unless it is already in the set.
    pub fn insert(&mut self, s: String)
        ensures
            final(self)@ == with(old(self)@, s@),
    {
        if self.position(s.as_str()).is_none() {
            self.items.push(s);
            assert(self@ =~= old(self)@.push(s@));
        }
    }

    /// Removes `s` from the set.
    pub fn remove(&mut self, s: &str)
        ensures
            final(self)@ == without(old(self)@, s@),
    {
        let ghost old_view = self@;
        let mut kept: Vec<String> = Vec::new();
        let mut i: usize = 0;
        while i < self.items.len()
            invariant
                i <= self.items@.len(),
                old_view == texts(self.items@),
                texts(kept@) == without(old_view.subrange(0, i as int), s@),
            decreases self.items@.len() - i,
        {
            let ghost prefix = old_view.subrange(0, i as int);
            assert(old_view.subrange(0, i + 1) =~= prefix.push(old_view[i as int]));
            if !str_eq(self.items[i].as_str(), s) {
                kept.push(self.items[i].clone());
                assert(texts(kept@) =~= without(old_view.subrange(0, i + 1), s@));
            } else {
                assert(texts(kept@) =~= without(old_view.subrange(0, i + 1), s@));
            }
            i = i + 1;
        }
        assert(old_view.subrange(0, i as int) =~= old_view);
        self.items = kept;
    }

    pub fn clear(&mut self)
        ensures
            final(self)@ == Seq::<Seq<char>>::empty(),
    {
        self.items = Vec::new();
        assert(self@ =~= Seq::<Seq<char>>::empty());
    }

    pub fn len(&self) -> (r: usize)
        ensures
            r == self@.len(),
    {
        self.items.len()
    }

    pub fn is_empty(&self) -> (r: bool)
        ensures
            r == (self@.len() == 0),
    {
        self.items.len() == 0
    }

    /// The names, in the order in which they were added.
    pub fn to_vec(&self) -> (r: Vec<String>)
        ensures
            texts(r@) == self@,
    {
        self.items.clone()
    }
}

impl Clone for StringSet {
    fn clone(&self) -> (r: Self)
        ensures
            r@ == self@,
    {
        StringSet { items: self.items.clone() }
    }
}

/// Adding a name that was absent and removing it again restores the set.
pub proof fn lemma_insert_then_remove(s: Seq<Seq<char>>, x: Seq<char>)
    requires
        !s.contains(x),
    ensures
        without(with(s, x), x) == s,
{
    let t = with(s, x);
    assert(t == s.push(x));
    assert(without(s, x) =~= s) by {
        lemma_filter_keeps_all(s, x);
    }
}

proof fn lemma_filter_keeps_all(s: Seq<Seq<char>>, x: Seq<char>)
    requires
        !s.contains(x),
    ensures
        without(s, x) == s,
    decreases s.len(),
{
    if s.len() > 0 {
        let p = s.drop_last();
        assert(s =~= p.push(s.last()));
        assert(!p.contains(x)) by {
            if p.contains(x) {
                let k = choose|k: int| 0 <= k < p.len() && p[k] == x;
                assert(s[k] == x);
            }
        }
        lemma_filter_keeps_all(p, x);
    } else {
        assert(without(s, x) =~= s);
    }
}

/// A map from names to values, such as shell settings by container name.
#[derive(Debug)]
pub struct TextMap<V> {
    entries: Vec<(String, V)>,
}

/// Shell settings by container or image name.
pub type ShellConfigMap = TextMap<ContainerShellConfig>;

/// The keys of a list of entries.
pub open spec fn keys_of<V>(e: Seq<(String, V)>) -> Seq<Seq<char>> {
    e.map_values(|p: (String, V)| p.0@)
}

/// The map a list of entries with distinct keys stands for.
pub open spec fn map_of<V>(e: Seq<(String, V)>) -> Map<Seq<char>, V>
    decreases e.len(),
{
    if e.len() == 0 {
        Map::empty()
    } else {
        map_of(e.drop_last()).insert(e.last().0@, e.last().1)
    }
}

proof fn lemma_map_of_dom<V>(e: Seq<(String, V)>, k: Seq<char>)
    ensures
        map_of(e).dom().contains(k) <==> exists|i: int| 0 <= i < e.len() && (#[trigger] e[i]).0@ == k,
    decreases e.len(),
{
    if e.len() > 0 {
        lemma_map_of_dom(e.drop_last(), k);
        if map_of(e).dom().contains(k) {
            if e.last().0@ != k {
                let i = choose|i: int| 0 <= i < e.drop_last().len() && (#[trigger] e.drop_last()[i]).0@ == k;
                assert(e[i] == e.drop_last()[i]);
            }
        }
        if exists|i: int| 0 <= i < e.len() && (#[trigger] e[i]).0@ == k {
            let i = choose|i: int| 0 <= i < e.len() && (#[trigger] e[i]).0@ == k;
            if i < e.len() - 1 {
                assert(e.drop_last()[i] == e[i]);
            }
        }
    }
}

proof fn lemma_map_of_at<V>(e: Seq<(String, V)>, i: int)
    requires
        0 <= i < e.len(),
        keys_of(e).no_duplicates(),
    ensures
        map_of(e).dom().contains(e[i].0@),
        map_of(e)[e[i].0@] == e[i].1,
    decreases e.len(),
{
    if i == e.len() - 1 {
    } else {
        assert(keys_of(e.drop_last()) =~= keys_of(e).drop_last());
        lemma_map_of_at(e.drop_last(), i);
        assert(keys_of(e)[i] == e[i].0@);
        assert(keys_of(e)[e.len() - 1] == e.last().0@);
        assert(e.last().0@ != e[i].0@);
    }
}

proof fn lemma_map_of_update<V>(e: Seq<(String, V)>, i: int, v: V)
    requires
        0 <= i < e.len(),
        keys_of(e).no_duplicates(),
    ensures
        map_of(e.update(i, (e[i].0, v))) == map_of(e).insert(e[i].0@, v),
        keys_of(e.update(i, (e[i].0, v))) == keys_of(e),
    decreases e.len(),
{
    let u = e.update(i, (e[i].0, v));
    assert(keys_of(u) =~= keys_of(e));
    if i == e.len() - 1 {
        assert(u.drop_last() =~= e.drop_last());
        assert(map_of(u) =~= map_of(e).insert(e[i].0@, v));
    } else {
        assert(keys_of(e.drop_last()) =~= keys_of(e).drop_last());
        lemma_map_of_update(e.drop_last(), i, v);
        assert(u.drop_last() =~= e.drop_last().update(i, (e[i].0, v)));
        assert(keys_of(e)[i] == e[i].0@);
        assert(keys_of(e)[e.len() - 1] == e.last().0@);
        assert(e.last().0@ != e[i].0@);
        assert(map_of(u) =~= map_of(e).insert(e[i].0@, v));
    }
}

impl<V> View for TextMap<V> {
    type V = Map<Seq<char>, V>;

    closed spec fn view(&self) -> Map<Seq<char>, V> {
        map_of(self.entries@)
    }
}

impl<V> TextMap<V> {
    #[verifier::type_invariant]
    closed spec fn distinct_keys(self) -> bool {
        keys_of(self.entries@).no_duplicates()
    }

    pub fn new() -> (r: Self)
        ensures
            r@ == Map::<Seq<char>, V>::empty(),
    {
        let r = TextMap { entries: Vec::new() };
        assert(keys_of(r.entries@) =~= Seq::<Seq<char>>::empty());
        r
    }

    fn find(&self, key: &str) -> (r: Option<usize>)
        ensures
            r matches Some(i) ==> i < self.entries@.len() && self.entries@[i as int].0@ == key@,
            r is None ==> !self@.dom().contains(key@),
    {
        let mut i: usize = 0;
        while i < self.entries.len()
            invariant
                i <= self.entries@.len(),
                forall|j: int| 0 <= j < i ==> self.entries@[j].0@ != key@,
            decreases self.entries@.len() - i,
        {
            if str_eq(self.entries[i].0.as_str(), key) {
                return Some(i);
            }
            i = i + 1;
        }
        proof {
            lemma_map_of_dom(self.entries@, key@);
        }
        None
    }

    /// The settings stored under `key`.
    pub fn get(&self, key: &str) -> (r: Option<&V>)
        ensures
            r matches Some(v) ==> self@.dom().contains(key@) && *v == self@[key@],
            r is None ==> !self@.dom().contains(key@),
    {
        proof {
            use_type_invariant(self);
        }
        match self.find(key) {
            Some(i) => {
                proof {
                    lemma_map_of_at(self.entries@, i as int);
                }
                Some(&self.entries[i].1)
            }
            None => None,
        }
    }

    /// Stores `value` under `key`, replacing what was there.
    pub fn insert(&mut self, key: String, value: V)
        ensures
            final(self)@ == old(self)@.insert(key@, value),
    {
        proof {
            use_type_invariant(&*self);
        }
        let found = self.find(key.as_str());
        let mut entries: Vec<(String, V)> = Vec::new();
        std::mem::swap(&mut entries, &mut self.entries);
        proof {
            assert(keys_of(self.entries@) =~= Seq::<Seq<char>>::empty());
        }
        match found {
            Some(i) => {
                let ghost before = entries@;
                let k = entries[i].0.clone();
                entries.set(i, (k, value));
                proof {
                    lemma_map_of_update(before, i as int, value);
                    assert(entries@ == before.update(i as int, (before[i as int].0, value)));
                }
            }
            None => {
                let ghost before = entries@;
                entries.push((key, value));
                proof {
                    assert(entries@.drop_last() =~= before);
                    assert(keys_of(entries@) =~= keys_of(before).push(key@));
                    lemma_map_of_dom(before, key@);
                    assert forall|a: int, b: int| 0 <= a < b < keys_of(entries@).len() implies
                        keys_of(entries@)[a] != keys_of(entries@)[b] by {
                        if b == keys_of(before).len() {
                            assert(keys_of(before)[a] == before[a].0@);
                        }
                    }
                }
            }
        }
        *self = TextMap { entries };
    }

    /// The keys, each once, in the order they were first stored.
    pub fn keys(&self) -> (r: Vec<String>)
        ensures
            r@.map_values(|k: String| k@).no_duplicates(),
            forall|k: Seq<char>| self@.dom().contains(k) <==> r@.map_values(|x: String| x@).contains(k),
    {
        proof {
            use_type_invariant(self);
        }
        let mut out: Vec<String> = Vec::new();
        let mut i: usize = 0;
        while i < self.entries.len()
            invariant
                i <= self.entries@.len(),
                out@.map_values(|k: String| k@) == keys_of(self.entries@).subrange(0, i as int),
            decreases self.entries@.len() - i,
        {
            let ghost before = out@.map_values(|k: String| k@);
            let k = crate::text::owned(self.entries[i].0.as_str());
            out.push(k);
            assert(out@.map_values(|k: String| k@) =~= before.push(keys_of(self.entries@)[i as int]));
            i = i + 1;
            assert(out@.map_values(|k: String| k@) =~= keys_of(self.entries@).subrange(0, i as int));
        }
        assert(keys_of(self.entries@).subrange(0, i as int) =~= keys_of(self.entries@));
        assert forall|k: Seq<char>| self@.dom().contains(k) <==> out@.map_values(|x: String| x@).contains(k) by {
            lemma_map_of_dom(self.entries@, k);
            if self@.dom().contains(k) {
                let j = choose|j: int| 0 <= j < self.entries@.len() && (#[trigger] self.entries@[j]).0@ == k;
                assert(keys_of(self.entries@)[j] == k);
            }
            if out@.map_values(|x: String| x@).contains(k) {
                let j = choose|j: int| 0 <= j < keys_of(self.entries@).len() && keys_of(self.entries@)[j] == k;
                assert(self.entries@[j].0@ == k);
            }
        }
        out
    }
}

impl Clone for TextMap<ContainerShellConfig> {
    fn clone(&self) -> (r: Self)
        ensures
            r@ == self@,
    {
        proof {
            use_type_invariant(self);
        }
        let mut entries: Vec<(String, ContainerShellConfig)> = Vec::new();
        let mut i: usize = 0;
        while i < self.entries.len()
            invariant
                i <= self.entries@.len(),
                entries@ == self.entries@.subrange(0, i as int),
            decreases self.entries@.len() - i,
        {
            let k = self.entries[i].0.clone();
            let v = self.entries[i].1.clone();
            entries.push((k, v));
            i = i + 1;
            assert(entries@ =~= self.entries@.subrange(0, i as int));
        }
        assert(entries@ =~= self.entries@);
        TextMap { entries }
    }
}

impl Clone for TextMap<String> {
    fn clone(&self) -> (r: Self)
        ensures
            r@ == self@,
    {
        proof {
            use_type_invariant(self);
        }
        let mut entries: Vec<(String, String)> = Vec::new();
        let mut i: usize = 0;
        while i < self.entries.len()
            invariant
                i <= self.entries@.len(),
                entries@ == self.entries@.subrange(0, i as int),
            decreases self.entries@.len() - i,
        {
            let k = self.entries[i].0.clone();
            let v = self.entries[i].1.clone();
            entries.push((k, v));
            i = i + 1;
            assert(entries@ =~= self.entries@.subrange(0, i as int));
        }
        assert(entries@ =~= self.entries@);
        TextMap { entries }
    }
}

} // verus!
