//! The generic list state shared by the containers, images, networks and
//! volumes views: the items, the filtered and grouped selection of them, and
//! the cursor.

use vstd::prelude::*;
use crate::collections::StringSet;
use crate::event::{ContainerSummary, ImageEntry, NetworkEntry, VolumeEntry};
use crate::text::{
    compare_chars, contains_seq, lemma_seq_lt_asymmetric, lemma_seq_lt_irreflexive, lemma_seq_lt_total,
    lemma_seq_lt_transitive, lowercase, owned, seq_lt, str_contains, str_eq, to_lowercase,
};

verus! {

broadcast use vstd::seq_lib::group_seq_properties, Seq::lemma_filter_push;

/// A kind of item a list view shows.
pub trait Resource {
    type Summary;

    /// Whether `item` matches a lowercased filter term.
    spec fn spec_matches(item: Self::Summary, term: Seq<char>) -> bool;

    /// The group the item is listed under.
    spec fn spec_group(item: Self::Summary) -> Seq<char>;

    /// Whether `item` passes a non-empty status filter.
    spec fn spec_has_status(item: Self::Summary, status: Seq<char>) -> bool;

    fn matches_filter(item: &Self::Summary, term: &str) -> (r: bool)
        ensures
            r == Self::spec_matches(*item, term@);

    fn group_by(item: &Self::Summary) -> (r: String)
        ensures
            r@ == Self::spec_group(*item);

    fn has_status(item: &Self::Summary, status: &str) -> (r: bool)
        ensures
            r == Self::spec_has_status(*item, status@);
}

/// Whether the lowercase form of `field` contains `term`.
pub open spec fn lower_contains(field: Seq<char>, term: Seq<char>) -> bool {
    contains_seq(lowercase(field), term)
}

fn lower_contains_exec(field: &str, term: &str) -> (r: bool)
    ensures
        r == lower_contains(field@, term@),
{
    let l = to_lowercase(field);
    str_contains(l.as_str(), term)
}

/// The group of items that have none of their own.
pub open spec fn ungrouped() -> Seq<char> {
    "Ungrouped"@
}

/// Containers, grouped by compose project.
#[derive(Clone, Copy, Debug)]
pub struct ContainerResource;

impl Resource for ContainerResource {
    type Summary = ContainerSummary;

    open spec fn spec_matches(item: ContainerSummary, term: Seq<char>) -> bool {
        lower_contains(item.name@, term) || lower_contains(item.image@, term)
            || lower_contains(item.state@, term) || contains_seq(item.id@, term)
    }

    open spec fn spec_group(item: ContainerSummary) -> Seq<char> {
        if item.project@.len() == 0 { ungrouped() } else { item.project@ }
    }

    open spec fn spec_has_status(item: ContainerSummary, status: Seq<char>) -> bool {
        item.state@ == status
    }

    fn matches_filter(item: &ContainerSummary, term: &str) -> (r: bool) {
        lower_contains_exec(item.name.as_str(), term) || lower_contains_exec(item.image.as_str(), term)
            || lower_contains_exec(item.state.as_str(), term) || str_contains(item.id.as_str(), term)
    }

    fn group_by(item: &ContainerSummary) -> (r: String) {
        if item.project.as_str().is_empty() { owned("Ungrouped") } else { item.project.clone() }
    }

    fn has_status(item: &ContainerSummary, status: &str) -> (r: bool) {
        str_eq(item.state.as_str(), status)
    }
}

/// Images.
#[derive(Clone, Copy, Debug)]
pub struct ImageResource;

impl Resource for ImageResource {
    type Summary = ImageEntry;

    open spec fn spec_matches(item: ImageEntry, term: Seq<char>) -> bool {
        lower_contains(item.repository@, term) || lower_contains(item.tag@, term) || contains_seq(item.id@, term)
    }

    open spec fn spec_group(item: ImageEntry) -> Seq<char> {
        ungrouped()
    }

    open spec fn spec_has_status(item: ImageEntry, status: Seq<char>) -> bool {
        true
    }

    fn matches_filter(item: &ImageEntry, term: &str) -> (r: bool) {
        lower_contains_exec(item.repository.as_str(), term) || lower_contains_exec(item.tag.as_str(), term)
            || str_contains(item.id.as_str(), term)
    }

    fn group_by(item: &ImageEntry) -> (r: String) {
        owned("Ungrouped")
    }

    fn has_status(item: &ImageEntry, status: &str) -> (r: bool) {
        true
    }
}

/// Volumes.
#[derive(Clone, Copy, Debug)]
pub struct VolumeResource;

impl Resource for VolumeResource {
    type Summary = VolumeEntry;

    open spec fn spec_matches(item: VolumeEntry, term: Seq<char>) -> bool {
        lower_contains(item.name@, term) || lower_contains(item.driver@, term)
    }

    open spec fn spec_group(item: VolumeEntry) -> Seq<char> {
        ungrouped()
    }

    open spec fn spec_has_status(item: VolumeEntry, status: Seq<char>) -> bool {
        true
    }

    fn matches_filter(item: &VolumeEntry, term: &str) -> (r: bool) {
        lower_contains_exec(item.name.as_str(), term) || lower_contains_exec(item.driver.as_str(), term)
    }

    fn group_by(item: &VolumeEntry) -> (r: String) {
        owned("Ungrouped")
    }

    fn has_status(item: &VolumeEntry, status: &str) -> (r: bool) {
        true
    }
}

/// Networks.
#[derive(Clone, Copy, Debug)]
pub struct NetworkResource;

impl Resource for NetworkResource {
    type Summary = NetworkEntry;

    open spec fn spec_matches(item: NetworkEntry, term: Seq<char>) -> bool {
        lower_contains(item.name@, term) || lower_contains(item.driver@, term)
            || lower_contains(item.scope@, term)
    }

    open spec fn spec_group(item: NetworkEntry) -> Seq<char> {
        ungrouped()
    }

    open spec fn spec_has_status(item: NetworkEntry, status: Seq<char>) -> bool {
        true
    }

    fn matches_filter(item: &NetworkEntry, term: &str) -> (r: bool) {
        lower_contains_exec(item.name.as_str(), term) || lower_contains_exec(item.driver.as_str(), term)
            || lower_contains_exec(item.scope.as_str(), term)
    }

    fn group_by(item: &NetworkEntry) -> (r: String) {
        owned("Ungrouped")
    }

    fn has_status(item: &NetworkEntry, status: &str) -> (r: bool) {
        true
    }
}

/// Whether item `i` is shown under a status filter and a text filter: the
/// status filter lets everything through when empty, the text filter too;
/// otherwise the item must match the lowercased text.
pub open spec fn shown<T: Resource>(items: Seq<T::Summary>, i: int, status: Seq<char>, filter: Seq<char>) -> bool {
    &&& (status.len() == 0 || T::spec_has_status(items[i], status))
    &&& (filter.len() == 0 || T::spec_matches(items[i], lowercase(filter)))
}

/// The indices among the first `n` items that are shown, in increasing order.
pub open spec fn shown_indices<T: Resource>(items: Seq<T::Summary>, n: int, status: Seq<char>, filter: Seq<char>) -> Seq<usize>
    decreases n,
{
    if n <= 0 {
        Seq::empty()
    } else if shown::<T>(items, n - 1, status, filter) {
        shown_indices::<T>(items, n - 1, status, filter).push((n - 1) as usize)
    } else {
        shown_indices::<T>(items, n - 1, status, filter)
    }
}

/// Item `i` is among the shown indices of the first `n` items exactly when
/// it is one of them and is shown.
proof fn lemma_shown_indices_contains<T: Resource>(items: Seq<T::Summary>, n: int, status: Seq<char>, filter: Seq<char>, i: usize)
    requires
        n <= usize::MAX + 1,
    ensures
        shown_indices::<T>(items, n, status, filter).contains(i) <==> (i < n && shown::<T>(items, i as int, status, filter)),
    decreases n,
{
    if n > 0 {
        lemma_shown_indices_contains::<T>(items, n - 1, status, filter, i);
        lemma_shown_indices_bounded::<T>(items, n - 1, status, filter);
        let prev = shown_indices::<T>(items, n - 1, status, filter);
        if shown::<T>(items, n - 1, status, filter) {
            let next = prev.push((n - 1) as usize);
            assert(shown_indices::<T>(items, n, status, filter) == next);
            if next.contains(i) {
                let k = choose|k: int| 0 <= k < next.len() && #[trigger] next[k] == i;
                if k < prev.len() {
                    assert(prev[k] == i);
                    assert(prev.contains(i));
                }
            }
            if i == n - 1 {
                assert(next[prev.len() as int] == i);
            }
            if prev.contains(i) {
                let k = choose|k: int| 0 <= k < prev.len() && #[trigger] prev[k] == i;
                assert(next[k] == i);
            }
        } else {
            if prev.contains(i) {
                let k = choose|k: int| 0 <= k < prev.len() && #[trigger] prev[k] == i;
                assert(prev[k] < n - 1);
            }
        }
    } else {
        assert(shown_indices::<T>(items, n, status, filter) =~= Seq::<usize>::empty());
    }
}

proof fn lemma_shown_indices_bounded<T: Resource>(items: Seq<T::Summary>, n: int, status: Seq<char>, filter: Seq<char>)
    requires
        n <= usize::MAX + 1,
    ensures
        forall|k: int| 0 <= k < shown_indices::<T>(items, n, status, filter).len()
            ==> 0 <= #[trigger] shown_indices::<T>(items, n, status, filter)[k] < n,
    decreases n,
{
    if n > 0 {
        lemma_shown_indices_bounded::<T>(items, n - 1, status, filter);
        let prev = shown_indices::<T>(items, n - 1, status, filter);
        if shown::<T>(items, n - 1, status, filter) {
            let next = prev.push((n - 1) as usize);
            assert(shown_indices::<T>(items, n, status, filter) == next);
            assert forall|k: int| 0 <= k < next.len() implies 0 <= #[trigger] next[k] < n by {
                if k < prev.len() {
                    assert(next[k] == prev[k]);
                }
            }
        }
    }
}

/// Filtering the containers list: a container is shown exactly when its
/// state is the chosen status (if one is chosen) and the lowercased filter
/// text (if any) occurs in its lowercased name, image or state, or in its
/// id. In particular a container whose image holds the text is shown.
pub proof fn lemma_container_filter(items: Seq<ContainerSummary>, status: Seq<char>, filter: Seq<char>, i: usize)
    requires
        i < items.len(),
        items.len() <= usize::MAX,
    ensures
        shown_indices::<ContainerResource>(items, items.len() as int, status, filter).contains(i) <==> (
            (status.len() == 0 || items[i as int].state@ == status)
            && (filter.len() == 0
                || contains_seq(lowercase(items[i as int].name@), lowercase(filter))
                || contains_seq(lowercase(items[i as int].image@), lowercase(filter))
                || contains_seq(lowercase(items[i as int].state@), lowercase(filter))
                || contains_seq(items[i as int].id@, lowercase(filter)))),
{
    lemma_shown_indices_contains::<ContainerResource>(items, items.len() as int, status, filter, i);
}

/// Filtering the images list: an image is shown exactly when the
/// lowercased filter text (if any) occurs in its lowercased repository or
/// tag, or in its id.
pub proof fn lemma_image_filter(items: Seq<ImageEntry>, status: Seq<char>, filter: Seq<char>, i: usize)
    requires
        i < items.len(),
        items.len() <= usize::MAX,
    ensures
        shown_indices::<ImageResource>(items, items.len() as int, status, filter).contains(i) <==> (
            filter.len() == 0
                || contains_seq(lowercase(items[i as int].repository@), lowercase(filter))
                || contains_seq(lowercase(items[i as int].tag@), lowercase(filter))
                || contains_seq(items[i as int].id@, lowercase(filter))),
{
    lemma_shown_indices_contains::<ImageResource>(items, items.len() as int, status, filter, i);
}

/// Filtering the volumes list: a volume is shown exactly when the
/// lowercased filter text (if any) occurs in its lowercased name or driver.
pub proof fn lemma_volume_filter(items: Seq<VolumeEntry>, status: Seq<char>, filter: Seq<char>, i: usize)
    requires
        i < items.len(),
        items.len() <= usize::MAX,
    ensures
        shown_indices::<VolumeResource>(items, items.len() as int, status, filter).contains(i) <==> (
            filter.len() == 0
                || contains_seq(lowercase(items[i as int].name@), lowercase(filter))
                || contains_seq(lowercase(items[i as int].driver@), lowercase(filter))),
{
    lemma_shown_indices_contains::<VolumeResource>(items, items.len() as int, status, filter, i);
}

/// Filtering the networks list: a network is shown exactly when the
/// lowercased filter text (if any) occurs in its lowercased name, driver or
/// scope.
pub proof fn lemma_network_filter(items: Seq<NetworkEntry>, status: Seq<char>, filter: Seq<char>, i: usize)
    requires
        i < items.len(),
        items.len() <= usize::MAX,
    ensures
        shown_indices::<NetworkResource>(items, items.len() as int, status, filter).contains(i) <==> (
            filter.len() == 0
                || contains_seq(lowercase(items[i as int].name@), lowercase(filter))
                || contains_seq(lowercase(items[i as int].driver@), lowercase(filter))
                || contains_seq(lowercase(items[i as int].scope@), lowercase(filter))),
{
    lemma_shown_indices_contains::<NetworkResource>(items, items.len() as int, status, filter, i);
}

/// The cursor after the list it points into has `len` rows: kept when still
/// inside, otherwise moved to the last row (or 0 when empty).
pub open spec fn clamp_selected(selected: usize, len: nat) -> usize {
    if selected >= len {
        if len == 0 { 0 } else { (len - 1) as usize }
    } else {
        selected
    }
}

/// Whether every element of `g` is strictly before the next, that is, `g` is
/// sorted and has no repeats.
pub open spec fn strictly_sorted(g: Seq<Seq<char>>) -> bool {
    forall|a: int, b: int| 0 <= a < b < g.len() ==> seq_lt(#[trigger] g[a], #[trigger] g[b])
}

/// The list state of one view.
#[derive(Debug)]
pub struct ResourceState<T: Resource> {
    pub items: Vec<T::Summary>,
    pub filtered: Vec<usize>,
    pub selected: usize,
    pub filter: String,
    pub filter_active: bool,
    pub loading: bool,
    pub last_updated: Option<u64>,
    pub scroll_offset: usize,
    pub show_column_picker: bool,
    pub column_picker_selection: usize,
    pub selection_mode: bool,
    pub selected_ids: StringSet,
}

impl<T: Resource> ResourceState<T> {
    /// The rows point at items that exist.
    pub open spec fn wf(&self) -> bool {
        forall|i: int| 0 <= i < self.filtered@.len() ==> #[trigger] self.filtered@[i] < self.items@.len()
    }

    /// An empty list that is still loading, unfiltered and with nothing
    /// selected.
    pub open spec fn is_fresh(&self) -> bool {
        &&& self.items@.len() == 0
        &&& self.filtered@.len() == 0
        &&& self.selected == 0
        &&& self.filter@.len() == 0
        &&& !self.filter_active
        &&& self.loading
        &&& self.last_updated is None
        &&& self.scroll_offset == 0
        &&& !self.show_column_picker
        &&& self.column_picker_selection == 0
        &&& !self.selection_mode
        &&& self.selected_ids@.len() == 0
    }

    /// An empty list that is still loading.
    pub fn new() -> (r: Self)
        ensures
            r.items@.len() == 0,
            r.filtered@.len() == 0,
            r.selected == 0,
            r.filter@.len() == 0,
            !r.filter_active,
            r.loading,
            r.last_updated is None,
            r.scroll_offset == 0,
            !r.show_column_picker,
            r.column_picker_selection == 0,
            !r.selection_mode,
            r.selected_ids@.len() == 0,
            r.wf(),
    {
        ResourceState {
            items: Vec::new(),
            filtered: Vec::new(),
            selected: 0,
            filter: String::new(),
            filter_active: false,
            loading: true,
            last_updated: None,
            scroll_offset: 0,
            show_column_picker: false,
            column_picker_selection: 0,
            selection_mode: false,
            selected_ids: StringSet::new(),
        }
    }

    /// Recomputes the shown rows from the items, the text filter and a status
    /// filter (empty for none), and pulls the cursor back inside.
    pub fn apply_filter(&mut self, status: &str)
        ensures
            final(self).filtered@ == shown_indices::<T>(old(self).items@, old(self).items@.len() as int, status@, old(self).filter@),
            final(self).selected == clamp_selected(old(self).selected, final(self).filtered@.len()),
            final(self).items == old(self).items,
            final(self).filter == old(self).filter,
            final(self).filter_active == old(self).filter_active,
            final(self).loading == old(self).loading,
            final(self).last_updated == old(self).last_updated,
            final(self).scroll_offset == old(self).scroll_offset,
            final(self).show_column_picker == old(self).show_column_picker,
            final(self).column_picker_selection == old(self).column_picker_selection,
            final(self).selection_mode == old(self).selection_mode,
            final(self).selected_ids == old(self).selected_ids,
            final(self).wf(),
    {
        let use_text = !self.filter.as_str().is_empty();
        let term = to_lowercase(self.filter.as_str());
        let use_status = !status.is_empty();
        let mut out: Vec<usize> = Vec::new();
        let mut i: usize = 0;
        while i < self.items.len()
            invariant
                i <= self.items@.len(),
                use_text == (self.filter@.len() > 0),
                use_status == (status@.len() > 0),
                term@ == lowercase(self.filter@),
                out@ == shown_indices::<T>(self.items@, i as int, status@, self.filter@),
                forall|k: int| 0 <= k < out@.len() ==> #[trigger] out@[k] < i,
                forall|a: int, b: int| 0 <= a < b < out@.len() ==> out@[a] < out@[b],
            decreases self.items@.len() - i,
        {
            let keep_status = !use_status || T::has_status(&self.items[i], status);
            let keep_text = !use_text || T::matches_filter(&self.items[i], term.as_str());
            if keep_status && keep_text {
                out.push(i);
            }
            i = i + 1;
        }
        let n = out.len();
        self.filtered = out;
        if self.selected >= n {
            self.selected = if n == 0 { 0 } else { n - 1 };
        }
    }

    /// Puts the shown rows in group order: groups by name, and within a
    /// group the rows keep their order.
    pub fn reorder_by_group(&mut self)
        requires
            old(self).wf(),
        ensures
            final(self).filtered@ == grouped_rows::<T>(old(self).items@, old(self).filtered@),
            final(self).selected == clamp_selected(old(self).selected, final(self).filtered@.len()),
            final(self).items == old(self).items,
            final(self).filter == old(self).filter,
            final(self).filter_active == old(self).filter_active,
            final(self).loading == old(self).loading,
            final(self).last_updated == old(self).last_updated,
            final(self).scroll_offset == old(self).scroll_offset,
            final(self).show_column_picker == old(self).show_column_picker,
            final(self).column_picker_selection == old(self).column_picker_selection,
            final(self).selection_mode == old(self).selection_mode,
            final(self).selected_ids == old(self).selected_ids,
            final(self).wf(),
    {
        let rows = group_rows::<T>(&self.items, &self.filtered);
        let n = rows.len();
        self.filtered = rows;
        if self.selected >= n {
            self.selected = if n == 0 { 0 } else { n - 1 };
        }
    }

    /// Replaces the items by a fresh list from the daemon and refilters.
    pub fn update_items(&mut self, new_items: Vec<T::Summary>, status: &str, now: u64)
        ensures
            final(self).items@ == new_items@,
            !final(self).loading,
            final(self).last_updated == Some(now),
            final(self).filtered@ == shown_indices::<T>(new_items@, new_items@.len() as int, status@, old(self).filter@),
            final(self).selected == clamp_selected(old(self).selected, final(self).filtered@.len()),
            final(self).filter == old(self).filter,
            final(self).filter_active == old(self).filter_active,
            final(self).scroll_offset == old(self).scroll_offset,
            final(self).show_column_picker == old(self).show_column_picker,
            final(self).column_picker_selection == old(self).column_picker_selection,
            final(self).selection_mode == old(self).selection_mode,
            final(self).selected_ids == old(self).selected_ids,
            final(self).wf(),
    {
        self.items = new_items;
        self.loading = false;
        self.last_updated = Some(now);
        self.apply_filter(status);
    }
}

/// The group names of the given rows, each once, in increasing order.
pub open spec fn group_names<T: Resource>(items: Seq<T::Summary>, rows: Seq<usize>) -> Seq<Seq<char>> {
    choose|g: Seq<Seq<char>>| strictly_sorted(g)
        && (forall|k: Seq<char>| g.contains(k) <==> exists|i: int| 0 <= i < rows.len() && T::spec_group(items[#[trigger] rows[i] as int]) == k)
}

/// The rows of group `g`, in their order.
pub open spec fn rows_in_group<T: Resource>(items: Seq<T::Summary>, rows: Seq<usize>, g: Seq<char>) -> Seq<usize> {
    rows.filter(|r: usize| T::spec_group(items[r as int]) == g)
}

/// The rows of the first `n` groups of `names`, group after group.
pub open spec fn concat_groups<T: Resource>(items: Seq<T::Summary>, rows: Seq<usize>, names: Seq<Seq<char>>, n: int) -> Seq<usize>
    decreases n,
{
    if n <= 0 {
        Seq::empty()
    } else {
        concat_groups::<T>(items, rows, names, n - 1) + rows_in_group::<T>(items, rows, names[n - 1])
    }
}

/// The rows reordered group by group, groups in name order.
pub open spec fn grouped_rows<T: Resource>(items: Seq<T::Summary>, rows: Seq<usize>) -> Seq<usize> {
    let names = group_names::<T>(items, rows);
    concat_groups::<T>(items, rows, names, names.len() as int)
}

/// Two strictly sorted sequences with the same elements are equal.
proof fn lemma_sorted_unique(g1: Seq<Seq<char>>, g2: Seq<Seq<char>>)
    requires
        strictly_sorted(g1),
        strictly_sorted(g2),
        forall|k: Seq<char>| g1.contains(k) <==> g2.contains(k),
    ensures
        g1 == g2,
    decreases g1.len() + g2.len(),
{
    if g1.len() == 0 {
        if g2.len() > 0 {
            assert(g2.contains(g2[0]));
        }
        assert(g1 =~= g2);
    } else if g2.len() == 0 {
        assert(g1.contains(g1[0]));
    } else {
        let x = g1[0];
        let y = g2[0];
        assert(g1.contains(x));
        assert(g2.contains(y));
        if x != y {
            let j = choose|j: int| 0 <= j < g2.len() && g2[j] == x;
            let i = choose|i: int| 0 <= i < g1.len() && g1[i] == y;
            assert(j > 0);
            assert(i > 0);
            assert(seq_lt(y, x));
            assert(seq_lt(x, y));
            lemma_seq_lt_asymmetric(x, y);
        }
        let t1 = g1.drop_first();
        let t2 = g2.drop_first();
        assert forall|k: Seq<char>| t1.contains(k) <==> t2.contains(k) by {
            if t1.contains(k) {
                let i = choose|i: int| 0 <= i < t1.len() && t1[i] == k;
                assert(g1[i + 1] == k);
                assert(seq_lt(x, k));
                lemma_seq_lt_irreflexive(k);
                assert(g2.contains(k));
                let j = choose|j: int| 0 <= j < g2.len() && g2[j] == k;
                assert(j != 0);
                assert(t2[j - 1] == k);
            }
            if t2.contains(k) {
                let j = choose|j: int| 0 <= j < t2.len() && t2[j] == k;
                assert(g2[j + 1] == k);
                assert(seq_lt(y, k));
                lemma_seq_lt_irreflexive(k);
                assert(g1.contains(k));
                let i = choose|i: int| 0 <= i < g1.len() && g1[i] == k;
                assert(i != 0);
                assert(t1[i - 1] == k);
            }
        }
        lemma_sorted_unique(t1, t2);
        assert(g1 =~= seq![x] + t1);
        assert(g2 =~= seq![y] + t2);
    }
}

/// The views of a list of character vectors.
pub open spec fn char_views(v: Seq<Vec<char>>) -> Seq<Seq<char>> {
    v.map_values(|c: Vec<char>| c@)
}

/// Inserts `key` into a strictly sorted list unless it is there already.
fn insert_sorted(names: &mut Vec<Vec<char>>, key: Vec<char>)
    requires
        strictly_sorted(char_views(old(names)@)),
    ensures
        strictly_sorted(char_views(final(names)@)),
        forall|k: Seq<char>| char_views(final(names)@).contains(k) <==> (char_views(old(names)@).contains(k) || k == key@),
{
    let ghost old_v = char_views(names@);
    let mut p: usize = 0;
    while p < names.len() && compare_chars(&names[p], &key) < 0
        invariant
            p <= names@.len(),
            old_v == char_views(names@),
            forall|a: int| 0 <= a < p ==> seq_lt(#[trigger] old_v[a], key@),
        decreases names@.len() - p,
    {
        p = p + 1;
    }
    if p < names.len() && compare_chars(&names[p], &key) == 0 {
        assert(old_v[p as int] == key@);
        assert forall|k: Seq<char>| old_v.contains(k) <==> (old_v.contains(k) || k == key@) by {
            if k == key@ {
                assert(old_v[p as int] == k);
            }
        }
        return;
    }
    proof {
        if p < names@.len() {
            assert(old_v[p as int] == names@[p as int]@);
            lemma_seq_lt_total(old_v[p as int], key@);
        }
    }
    names.insert(p, key);
    proof {
        let nv = char_views(names@);
        assert(nv =~= old_v.insert(p as int, key@));
        assert forall|a: int, b: int| 0 <= a < b < nv.len() implies seq_lt(#[trigger] nv[a], #[trigger] nv[b]) by {
            if b < p {
            } else if b == p {
            } else if a < p {
                assert(nv[b] == old_v[b - 1]);
                if b - 1 > p {
                    lemma_seq_lt_transitive(key@, old_v[p as int], old_v[b - 1]);
                }
                lemma_seq_lt_transitive(old_v[a], key@, old_v[b - 1]);
            } else if a == p {
                if b - 1 > p {
                    lemma_seq_lt_transitive(key@, old_v[p as int], old_v[b - 1]);
                }
            } else {
                assert(nv[a] == old_v[a - 1]);
                assert(nv[b] == old_v[b - 1]);
            }
        }
        assert forall|k: Seq<char>| nv.contains(k) <==> (old_v.contains(k) || k == key@) by {
            if nv.contains(k) {
                let i = choose|i: int| 0 <= i < nv.len() && nv[i] == k;
                if i < p {
                    assert(old_v[i] == k);
                } else if i > p {
                    assert(old_v[i - 1] == k);
                }
            }
            if old_v.contains(k) {
                let i = choose|i: int| 0 <= i < old_v.len() && old_v[i] == k;
                if i < p {
                    assert(nv[i] == k);
                } else {
                    assert(nv[i + 1] == k);
                }
            }
            if k == key@ {
                assert(nv[p as int] == k);
            }
        }
    }
}

/// The group of every row, and the group names, each once, in order.
pub(crate) fn group_keys<T: Resource>(items: &Vec<T::Summary>, rows: &Vec<usize>) -> (r: (Vec<Vec<char>>, Vec<Vec<char>>))
    requires
        forall|i: int| 0 <= i < rows@.len() ==> #[trigger] rows@[i] < items@.len(),
    ensures
        r.0@.len() == rows@.len(),
        forall|j: int| 0 <= j < rows@.len() ==> (#[trigger] r.0@[j])@ == T::spec_group(items@[rows@[j] as int]),
        char_views(r.1@) == group_names::<T>(items@, rows@),
{
    // The group of every row.
    let mut keys: Vec<Vec<char>> = Vec::new();
    let mut names: Vec<Vec<char>> = Vec::new();
    let mut i: usize = 0;
    assert(strictly_sorted(char_views(names@)));
    while i < rows.len()
        invariant
            i <= rows@.len(),
            forall|j: int| 0 <= j < rows@.len() ==> #[trigger] rows@[j] < items@.len(),
            keys@.len() == i,
            forall|j: int| 0 <= j < i ==> (#[trigger] keys@[j])@ == T::spec_group(items@[rows@[j] as int]),
            strictly_sorted(char_views(names@)),
            forall|k: Seq<char>| char_views(names@).contains(k) <==>
                exists|j: int| 0 <= j < i && T::spec_group(items@[#[trigger] rows@[j] as int]) == k,
        decreases rows@.len() - i,
    {
        let g = T::group_by(&items[rows[i]]);
        let gc = crate::text::chars_of(g.as_str());
        let ghost before = char_views(names@);
        insert_sorted(&mut names, gc.clone());
        keys.push(gc);
        proof {
            assert forall|k: Seq<char>| char_views(names@).contains(k) <==>
                exists|j: int| 0 <= j < i + 1 && T::spec_group(items@[#[trigger] rows@[j] as int]) == k by {
                if char_views(names@).contains(k) && k != g@ {
                    assert(before.contains(k));
                }
                if exists|j: int| 0 <= j < i + 1 && T::spec_group(items@[#[trigger] rows@[j] as int]) == k {
                    let j = choose|j: int| 0 <= j < i + 1 && T::spec_group(items@[#[trigger] rows@[j] as int]) == k;
                    if j < i {
                        assert(before.contains(k));
                    }
                }
            }
        }
        i = i + 1;
    }
    let ghost nv = char_views(names@);
    proof {
        assert(nv == group_names::<T>(items@, rows@)) by {
            let g = group_names::<T>(items@, rows@);
            assert(strictly_sorted(nv) && (forall|k: Seq<char>| nv.contains(k) <==> exists|i: int| 0 <= i < rows@.len() && T::spec_group(items@[#[trigger] rows@[i] as int]) == k));
            lemma_sorted_unique(nv, g);
        }
    }
    (keys, names)
}

fn group_rows<T: Resource>(items: &Vec<T::Summary>, rows: &Vec<usize>) -> (r: Vec<usize>)
    requires
        forall|i: int| 0 <= i < rows@.len() ==> #[trigger] rows@[i] < items@.len(),
    ensures
        r@ == grouped_rows::<T>(items@, rows@),
        forall|i: int| 0 <= i < r@.len() ==> #[trigger] r@[i] < items@.len(),
{
    let (keys, names) = group_keys::<T>(items, rows);
    let ghost nv = char_views(names@);
    let mut out: Vec<usize> = Vec::new();
    let mut n: usize = 0;
    while n < names.len()
        invariant
            n <= names@.len(),
            nv == char_views(names@),
            keys@.len() == rows@.len(),
            forall|j: int| 0 <= j < rows@.len() ==> (#[trigger] keys@[j])@ == T::spec_group(items@[rows@[j] as int]),
            forall|j: int| 0 <= j < rows@.len() ==> #[trigger] rows@[j] < items@.len(),
            out@ == concat_groups::<T>(items@, rows@, nv, n as int),
            forall|j: int| 0 <= j < out@.len() ==> #[trigger] out@[j] < items@.len(),
        decreases names@.len() - n,
    {
        let ghost base = out@;
        let mut k: usize = 0;
        while k < rows.len()
            invariant
                n < names@.len(),
                k <= rows@.len(),
                nv == char_views(names@),
                keys@.len() == rows@.len(),
                forall|j: int| 0 <= j < rows@.len() ==> (#[trigger] keys@[j])@ == T::spec_group(items@[rows@[j] as int]),
                forall|j: int| 0 <= j < rows@.len() ==> #[trigger] rows@[j] < items@.len(),
                out@ == base + rows@.subrange(0, k as int).filter(|r: usize| T::spec_group(items@[r as int]) == nv[n as int]),
                forall|j: int| 0 <= j < out@.len() ==> #[trigger] out@[j] < items@.len(),
            decreases rows@.len() - k,
        {
            assert(rows@.subrange(0, k + 1) =~= rows@.subrange(0, k as int).push(rows@[k as int]));
            assert(nv[n as int] == names@[n as int]@);
            if crate::text::seq_eq(&keys[k], &names[n]) {
                out.push(rows[k]);
            }
            k = k + 1;
        }
        assert(rows@.subrange(0, k as int) =~= rows@);
        n = n + 1;
    }
    out
}

} // verus!
