//! What the containers table and the explorer panels show, row by row:
//! which rows there are, in which order, and what marks them. Drawing them
//! is left to the terminal front end.

use vstd::prelude::*;
use crate::collections::StringSet;
use crate::event::ContainerSummary;
use crate::resource::{char_views, group_keys, group_names, rows_in_group, ContainerResource, Resource};
use crate::state::ExplorerPanel;
use crate::state::AppState;
use crate::text::{decimal, owned, push_char, push_decimal, seq_eq, str_eq, string_of};

verus! {

broadcast use Seq::lemma_filter_push;

/// One row of the containers table.
#[derive(Debug, PartialEq, Eq)]
pub enum ContainerRow {
    /// The header of a group: its name and how many of its containers are
    /// listed.
    Group { name: String, count: usize },
    /// A container, by its index among the items.
    Item { index: usize },
}

/// A row as a header (its name and count) or an item (its index).
pub open spec fn row_view(r: ContainerRow) -> (Option<Seq<char>>, int) {
    match r {
        ContainerRow::Group { name, count } => (Some(name@), count as int),
        ContainerRow::Item { index } => (None, index as int),
    }
}

/// The rows of the first `n` groups of `names`: each group's header, then
/// its containers in the order of `rows`.
pub open spec fn table_rows(items: Seq<ContainerSummary>, rows: Seq<usize>, names: Seq<Seq<char>>, n: int) -> Seq<(Option<Seq<char>>, int)>
    decreases n,
{
    if n <= 0 {
        Seq::empty()
    } else {
        let g = rows_in_group::<ContainerResource>(items, rows, names[n - 1]);
        table_rows(items, rows, names, n - 1) + seq![(Some(names[n - 1]), g.len() as int)]
            + g.map_values(|r: usize| (None::<Seq<char>>, r as int))
    }
}

/// The rows of the containers table for the listed rows `rows`: the groups
/// in name order, each with its header.
pub open spec fn container_table(items: Seq<ContainerSummary>, rows: Seq<usize>) -> Seq<(Option<Seq<char>>, int)> {
    let names = group_names::<ContainerResource>(items, rows);
    table_rows(items, rows, names, names.len() as int)
}

/// The rows of the containers table (see [`container_table`]).
pub fn container_rows(items: &Vec<ContainerSummary>, rows: &Vec<usize>) -> (r: Vec<ContainerRow>)
    requires
        forall|i: int| 0 <= i < rows@.len() ==> #[trigger] rows@[i] < items@.len(),
    ensures
        r@.map_values(|x: ContainerRow| row_view(x)) == container_table(items@, rows@),
{
    let (keys, names) = group_keys::<ContainerResource>(items, rows);
    let ghost nv = char_views(names@);
    let mut out: Vec<ContainerRow> = Vec::new();
    let mut n: usize = 0;
    while n < names.len()
        invariant
            n <= names@.len(),
            nv == char_views(names@),
            nv == group_names::<ContainerResource>(items@, rows@),
            keys@.len() == rows@.len(),
            forall|j: int| 0 <= j < rows@.len() ==> (#[trigger] keys@[j])@ == ContainerResource::spec_group(items@[rows@[j] as int]),
            out@.map_values(|x: ContainerRow| row_view(x)) == table_rows(items@, rows@, nv, n as int),
        decreases names@.len() - n,
    {
        let ghost pred = |r: usize| ContainerResource::spec_group(items@[r as int]) == nv[n as int];
        let mut group: Vec<usize> = Vec::new();
        let mut k: usize = 0;
        while k < rows.len()
            invariant
                n < names@.len(),
                k <= rows@.len(),
                nv == char_views(names@),
                pred == (|r: usize| ContainerResource::spec_group(items@[r as int]) == nv[n as int]),
                keys@.len() == rows@.len(),
                forall|j: int| 0 <= j < rows@.len() ==> (#[trigger] keys@[j])@ == ContainerResource::spec_group(items@[rows@[j] as int]),
                group@ == rows@.subrange(0, k as int).filter(pred),
            decreases rows@.len() - k,
        {
            assert(rows@.subrange(0, k + 1) =~= rows@.subrange(0, k as int).push(rows@[k as int]));
            assert(nv[n as int] == names@[n as int]@);
            if seq_eq(&keys[k], &names[n]) {
                group.push(rows[k]);
            }
            k = k + 1;
        }
        assert(rows@.subrange(0, k as int) =~= rows@);
        let ghost before = out@.map_values(|x: ContainerRow| row_view(x));
        let ghost g = group@;
        assert(g == rows_in_group::<ContainerResource>(items@, rows@, nv[n as int]));
        let name = string_of(names[n].as_slice());
        out.push(ContainerRow::Group { name, count: group.len() });
        let mut m: usize = 0;
        while m < group.len()
            invariant
                m <= group@.len(),
                group@ == g,
                out@.map_values(|x: ContainerRow| row_view(x)) == before + seq![(Some(nv[n as int]), g.len() as int)]
                    + g.subrange(0, m as int).map_values(|r: usize| (None::<Seq<char>>, r as int)),
            decreases group@.len() - m,
        {
            let ghost prev = out@;
            out.push(ContainerRow::Item { index: group[m] });
            assert(out@.map_values(|x: ContainerRow| row_view(x)) =~= prev.map_values(|x: ContainerRow| row_view(x)).push((None::<Seq<char>>, g[m as int] as int)));
            assert(g.subrange(0, m + 1) =~= g.subrange(0, m as int).push(g[m as int]));
            assert(g.subrange(0, m + 1).map_values(|r: usize| (None::<Seq<char>>, r as int)) =~= g.subrange(0, m as int).map_values(|r: usize| (None::<Seq<char>>, r as int)).push((None::<Seq<char>>, g[m as int] as int)));
            assert(out@.map_values(|x: ContainerRow| row_view(x)) =~= before + seq![(Some(nv[n as int]), g.len() as int)]
                + g.subrange(0, m + 1).map_values(|r: usize| (None::<Seq<char>>, r as int)));
            m = m + 1;
        }
        assert(g.subrange(0, m as int) =~= g);
        n = n + 1;
    }
    out
}

/// The title of the containers table, with `indicator` for how fresh the
/// list is: while loading, "(loading...)"; under a filter, the listed and
/// total counts and the filter; in selection mode with a selection, the
/// listed count and how many are selected; otherwise the listed count and
/// the status filter, if any.
pub open spec fn container_title(s: AppState, indicator: char) -> Seq<char> {
    let c = s.containers;
    let x = s.container_extra;
    let head = " CONTAINERS "@.push(indicator);
    if c.loading {
        head + " (loading...) "@
    } else if c.filter@.len() > 0 {
        head + " ("@ + decimal(c.filtered@.len()) + "/"@ + decimal(c.items@.len()) + ") FILTER '"@ + c.filter@ + "' "@
    } else if x.selection_mode && x.selected_ids@.len() > 0 {
        head + " ("@ + decimal(c.filtered@.len()) + ") ["@ + decimal(x.selected_ids@.len()) + "] "@
    } else {
        head + " ("@ + decimal(c.filtered@.len()) + ")"@
            + (if x.status_filter@.len() == 0 { Seq::<char>::empty() } else { " ["@ + x.status_filter@ + "]"@ })
            + " "@
    }
}

/// The title of the containers table (see [`container_title`]).
pub fn container_title_text(state: &AppState, indicator: char) -> (r: String)
    ensures
        r@ == container_title(*state, indicator),
{
    let c = &state.containers;
    let x = &state.container_extra;
    let mut out = owned(" CONTAINERS ");
    push_char(&mut out, indicator);
    proof {
        reveal_strlit(" CONTAINERS ");
        reveal_strlit(" (loading...) ");
        reveal_strlit(" (");
        reveal_strlit("/");
        reveal_strlit(") FILTER '");
        reveal_strlit("' ");
        reveal_strlit(") [");
        reveal_strlit("] ");
        reveal_strlit(")");
        reveal_strlit(" [");
        reveal_strlit("]");
        reveal_strlit(" ");
    }
    if c.loading {
        out.append(" (loading...) ");
    } else if !c.filter.as_str().is_empty() {
        out.append(" (");
        push_decimal(&mut out, c.filtered.len() as u64);
        out.append("/");
        push_decimal(&mut out, c.items.len() as u64);
        out.append(") FILTER '");
        out.append(c.filter.as_str());
        out.append("' ");
    } else if x.selection_mode && x.selected_ids.len() > 0 {
        out.append(" (");
        push_decimal(&mut out, c.filtered.len() as u64);
        out.append(") [");
        push_decimal(&mut out, x.selected_ids.len() as u64);
        out.append("] ");
    } else {
        out.append(" (");
        push_decimal(&mut out, c.filtered.len() as u64);
        out.append(")");
        if !x.status_filter.as_str().is_empty() {
            out.append(" [");
            out.append(x.status_filter.as_str());
            out.append("]");
        }
        out.append(" ");
    }
    out
}

/// The mark shown before a container's state for its health check.
pub open spec fn health_mark(health: Seq<char>) -> Seq<char> {
    if health == "healthy"@ {
        "● "@
    } else if health == "unhealthy"@ {
        "✗ "@
    } else if health == "starting"@ {
        "◐ "@
    } else {
        Seq::empty()
    }
}

/// The state column of container `c`: its health mark, then what is under
/// way for it (a stop, a start or a deletion, in that order of precedence),
/// or else its status.
pub open spec fn state_label(c: ContainerSummary, stopping: Seq<Seq<char>>, starting: Seq<Seq<char>>, deleting: Seq<Seq<char>>) -> Seq<char> {
    health_mark(c.health@) + if stopping.contains(c.id@) {
        "stopping..."@
    } else if starting.contains(c.id@) {
        "starting..."@
    } else if deleting.contains(c.id@) {
        "deleting..."@
    } else {
        c.status@
    }
}

/// The state column of a container (see [`state_label`]).
pub fn state_label_text(c: &ContainerSummary, stopping: &StringSet, starting: &StringSet, deleting: &StringSet) -> (r: String)
    ensures
        r@ == state_label(*c, stopping@, starting@, deleting@),
{
    proof {
        reveal_strlit("healthy");
        reveal_strlit("unhealthy");
        reveal_strlit("starting");
        reveal_strlit("● ");
        reveal_strlit("✗ ");
        reveal_strlit("◐ ");
    }
    let h = c.health.as_str();
    let mut out = if str_eq(h, "healthy") {
        owned("● ")
    } else if str_eq(h, "unhealthy") {
        owned("✗ ")
    } else if str_eq(h, "starting") {
        owned("◐ ")
    } else {
        String::new()
    };
    let id = c.id.as_str();
    if stopping.contains(id) {
        out.append("stopping...");
    } else if starting.contains(id) {
        out.append("starting...");
    } else if deleting.contains(id) {
        out.append("deleting...");
    } else {
        out.append(c.status.as_str());
    }
    out
}

/// One row of an explorer panel.
#[derive(Debug, PartialEq, Eq)]
pub enum PanelRow {
    /// The ".." row that leads up, and whether the cursor is on it.
    Parent { cursor: bool },
    /// An entry, by its index among the listed items; whether the cursor
    /// is on it and whether it is marked for a transfer.
    Entry { index: usize, cursor: bool, marked: bool },
}

/// Whether a panel lists the ".." row: everywhere but at the root.
pub open spec fn shows_parent(p: ExplorerPanel) -> bool {
    p.path@ != "/"@
}

/// The row of the panel's `i`-th listed entry; the cursor counts the ".."
/// row when there is one, and shows only in the focused panel.
pub open spec fn entry_row(p: ExplorerPanel, focused: bool, i: int) -> PanelRow {
    let pos = if shows_parent(p) { i + 1 } else { i };
    PanelRow::Entry {
        index: i as usize,
        cursor: focused && p.selected == pos,
        marked: p.selected_names@.contains(p.items@[i].name@),
    }
}

/// The rows of a panel: the ".." row unless it shows the root, then one
/// row per listed entry.
pub open spec fn panel_table(p: ExplorerPanel, focused: bool) -> Seq<PanelRow> {
    let entries = Seq::new(p.items@.len(), |i: int| entry_row(p, focused, i));
    if shows_parent(p) {
        seq![PanelRow::Parent { cursor: focused && p.selected == 0 }] + entries
    } else {
        entries
    }
}

/// The rows of a panel (see [`panel_table`]).
pub fn panel_rows(p: &ExplorerPanel, focused: bool) -> (r: Vec<PanelRow>)
    ensures
        r@ == panel_table(*p, focused),
{
    proof {
        reveal_strlit("/");
    }
    let parent = !str_eq(p.path.as_str(), "/");
    let mut out: Vec<PanelRow> = Vec::new();
    if parent {
        out.push(PanelRow::Parent { cursor: focused && p.selected == 0 });
    }
    let ghost start = out@;
    let mut i: usize = 0;
    while i < p.items.len()
        invariant
            i <= p.items@.len(),
            parent == shows_parent(*p),
            start == (if parent { seq![PanelRow::Parent { cursor: focused && p.selected == 0 }] } else { Seq::<PanelRow>::empty() }),
            out@ == start + Seq::new(i as nat, |k: int| entry_row(*p, focused, k)),
        decreases p.items@.len() - i,
    {
        let pos: usize = if parent {
            if i < usize::MAX { i + 1 } else { i }
        } else {
            i
        };
        let marked = p.selected_names.contains(p.items[i].name.as_str());
        let cursor = focused && (if parent { i < usize::MAX && p.selected == pos } else { p.selected == pos });
        out.push(PanelRow::Entry { index: i, cursor, marked });
        assert(out@ =~= start + Seq::new((i + 1) as nat, |k: int| entry_row(*p, focused, k)));
        i = i + 1;
    }
    assert(out@ =~= panel_table(*p, focused));
    out
}

/// The title of a list view named `name`: while loading, "(loading...)";
/// under a filter, the listed and total counts and the filter; otherwise
/// the listed count.
pub open spec fn list_title(name: Seq<char>, loading: bool, indicator: char, shown: nat, total: nat, filter: Seq<char>) -> Seq<char> {
    let head = " "@ + name + " "@.push(indicator);
    if loading {
        head + " (loading...) "@
    } else if filter.len() > 0 {
        head + " ("@ + decimal(shown) + "/"@ + decimal(total) + ") FILTER '"@ + filter + "' "@
    } else {
        head + " ("@ + decimal(shown) + ") "@
    }
}

/// The title of a list view (see [`list_title`]).
pub fn list_title_text(name: &str, loading: bool, indicator: char, shown: u64, total: u64, filter: &str) -> (r: String)
    ensures
        r@ == list_title(name@, loading, indicator, shown as nat, total as nat, filter@),
{
    proof {
        reveal_strlit(" ");
        reveal_strlit(" (loading...) ");
        reveal_strlit(" (");
        reveal_strlit("/");
        reveal_strlit(") FILTER '");
        reveal_strlit("' ");
        reveal_strlit(") ");
    }
    let mut out = owned(" ");
    out.append(name);
    out.append(" ");
    push_char(&mut out, indicator);
    if loading {
        out.append(" (loading...) ");
    } else if !filter.is_empty() {
        out.append(" (");
        push_decimal(&mut out, shown);
        out.append("/");
        push_decimal(&mut out, total);
        out.append(") FILTER '");
        out.append(filter);
        out.append("' ");
    } else {
        out.append(" (");
        push_decimal(&mut out, shown);
        out.append(") ");
    }
    out
}

} // verus!
