//! Mouse input: scrolling the current view, clicking a tab, a column
//! header of the statistics, a row of a list, or an entry of the explorer.

use vstd::prelude::*;
use crate::event::{Command, ContainerSummary, MouseClickKind};
use crate::reducers::statistics::{resort_statistics, sorted_stats};
use crate::mode::mode_of_tab;
use crate::mode::{tab_of, Mode};
use crate::paths::{container_parent, container_parent_exec, is_root, join_dir, join_dir_exec, join_root, join_root_exec, parent_of, path_parent, root};
use crate::reducers::explorer::{lists_container_dir, lists_host_dir, opened_at, vol_of};
use crate::reducers::navigation::stack;
use crate::reducers::{scroll_offset, scrolled};
use crate::resource::{char_views, group_keys, group_names, rows_in_group, ContainerResource, Resource, ResourceState};
use crate::state::{AppState, EventsState, ExplorerFocus, ExplorerPanel, ExplorerState, NavigationState, StatSort, StatisticsState};
use crate::text::{concat, decimal, seq_eq, str_eq};

verus! {

/// `a - b`, or 0 when `b > a`.
pub open spec fn sat_sub(a: int, b: int) -> int {
    if a > b { a - b } else { 0 }
}

/// The last valid row of a list of `len` rows (0 when empty).
pub open spec fn last_row(len: nat) -> usize {
    if len > 0 { (len - 1) as usize } else { 0 }
}

/// The panel that has the focus.
pub open spec fn focused(e: ExplorerState) -> ExplorerPanel {
    if e.focus == ExplorerFocus::Left { e.host } else { e.container }
}

/// The panel with its scroll offset moved by `dir` within its entries.
pub open spec fn panel_scrolled(p: ExplorerPanel, dir: i32) -> ExplorerPanel {
    if p.all_items@.len() > 0 {
        ExplorerPanel { scroll_offset: scrolled(p.scroll_offset, dir, last_row(p.all_items@.len())), ..p }
    } else {
        p
    }
}

/// Scrolling the current view by `dir` rows: the cursor of a list, the
/// offset of a text view, or the offset of the focused explorer panel.
pub open spec fn scroll_post(s0: AppState, dir: i32, s1: AppState) -> bool {
    match stack(s0).last() {
        Mode::Containers => s1 == AppState {
            containers: ResourceState { selected: scrolled(s0.containers.selected, dir, last_row(s0.containers.filtered@.len())), ..s0.containers },
            ..s0
        },
        Mode::Images => s1 == AppState {
            images: ResourceState { selected: scrolled(s0.images.selected, dir, last_row(s0.images.filtered@.len())), ..s0.images },
            ..s0
        },
        Mode::Networks => s1 == AppState {
            networks: ResourceState { selected: scrolled(s0.networks.selected, dir, last_row(s0.networks.filtered@.len())), ..s0.networks },
            ..s0
        },
        Mode::Volumes => s1 == AppState {
            volumes: ResourceState { selected: scrolled(s0.volumes.selected, dir, last_row(s0.volumes.filtered@.len())), ..s0.volumes },
            ..s0
        },
        Mode::Events => {
            let height = if s0.events.viewport_height > 1 { s0.events.viewport_height as int } else { 1 };
            let max = sat_sub(s0.events.buffer@.len() as int, height) as usize;
            s1 == AppState { events: EventsState { scroll_offset: scrolled(s0.events.scroll_offset, dir, max), ..s0.events }, ..s0 }
        },
        Mode::Statistics => if s0.statistics.items@.len() > 0 {
            s1 == AppState {
                statistics: StatisticsState {
                    scroll_offset: scrolled(s0.statistics.scroll_offset, dir, last_row(s0.statistics.items@.len())),
                    ..s0.statistics
                },
                ..s0
            }
        } else {
            s1 == s0
        },
        Mode::ContainerDetails(_) => match s0.navigation.details {
            Some(d) => s1 == AppState {
                navigation: crate::state::NavigationState {
                    details: Some(crate::state::DetailsState { scroll_offset: scrolled(d.scroll_offset, dir, usize::MAX), ..d }),
                    ..s0.navigation
                },
                ..s0
            },
            None => s1 == s0,
        },
        Mode::Help => s1 == AppState {
            navigation: crate::state::NavigationState {
                help: crate::state::HelpState { scroll_offset: scrolled(s0.navigation.help.scroll_offset, dir, usize::MAX) },
                ..s0.navigation
            },
            ..s0
        },
        Mode::Explorer(_) | Mode::ExplorerVolume(_, _) => s1 == AppState {
            explorer: if s0.explorer.focus == ExplorerFocus::Left {
                ExplorerState { host: panel_scrolled(s0.explorer.host, dir), ..s0.explorer }
            } else {
                ExplorerState { container: panel_scrolled(s0.explorer.container, dir), ..s0.explorer }
            },
            ..s0
        },
        _ => s1 == s0,
    }
}

fn last_row_exec(len: usize) -> (r: usize)
    ensures
        r == last_row(len as nat),
{
    if len > 0 { len - 1 } else { 0 }
}

fn scroll_panel(p: &mut ExplorerPanel, dir: i32)
    ensures
        *final(p) == panel_scrolled(*old(p), dir),
{
    let len = p.all_items.len();
    if len > 0 {
        p.scroll_offset = scroll_offset(p.scroll_offset, dir, len - 1);
    }
}

fn scroll_list<T: Resource>(l: &mut ResourceState<T>, dir: i32)
    ensures
        *final(l) == (ResourceState { selected: scrolled(old(l).selected, dir, last_row(old(l).filtered@.len())), ..*old(l) }),
{
    let max = last_row_exec(l.filtered.len());
    l.selected = scroll_offset(l.selected, dir, max);
}

fn scroll_events(ev: &mut EventsState, dir: i32)
    ensures
        *final(ev) == (EventsState {
            scroll_offset: scrolled(old(ev).scroll_offset, dir,
                sat_sub(old(ev).buffer@.len() as int, if old(ev).viewport_height > 1 { old(ev).viewport_height as int } else { 1 }) as usize),
            ..*old(ev)
        }),
{
    let height = if ev.viewport_height > 1 { ev.viewport_height } else { 1 };
    let n = ev.buffer.len();
    let max = if n > height { n - height } else { 0 };
    ev.scroll_offset = scroll_offset(ev.scroll_offset, dir, max);
}

fn scroll_statistics(t: &mut StatisticsState, dir: i32)
    ensures
        *final(t) == (if old(t).items@.len() > 0 {
            StatisticsState { scroll_offset: scrolled(old(t).scroll_offset, dir, last_row(old(t).items@.len())), ..*old(t) }
        } else {
            *old(t)
        }),
{
    let len = t.items.len();
    if len > 0 {
        t.scroll_offset = scroll_offset(t.scroll_offset, dir, len - 1);
    }
}

fn scroll_explorer(e: &mut ExplorerState, dir: i32)
    ensures
        *final(e) == (if old(e).focus == ExplorerFocus::Left {
            ExplorerState { host: panel_scrolled(old(e).host, dir), ..*old(e) }
        } else {
            ExplorerState { container: panel_scrolled(old(e).container, dir), ..*old(e) }
        }),
{
    match e.focus {
        ExplorerFocus::Left => scroll_panel(&mut e.host, dir),
        ExplorerFocus::Right => scroll_panel(&mut e.container, dir),
    }
}

fn scroll_details(nav: &mut crate::state::NavigationState, dir: i32)
    ensures
        *final(nav) == (match old(nav).details {
            Some(d) => crate::state::NavigationState {
                details: Some(crate::state::DetailsState { scroll_offset: scrolled(d.scroll_offset, dir, usize::MAX), ..d }),
                ..*old(nav)
            },
            None => *old(nav),
        }),
{
    let mut details = nav.details.take();
    if let Some(d) = &mut details {
        d.scroll_offset = scroll_offset(d.scroll_offset, dir, usize::MAX);
    }
    nav.details = details;
}

/// Scrolls the current view (see [`scroll_post`]).
#[verifier::rlimit(30)]
pub fn scroll_state(state: &mut AppState, dir: i32)
    ensures
        scroll_post(*old(state), dir, *final(state)),
{
    match state.navigation.mode_stack.current() {
        Mode::Containers => scroll_list(&mut state.containers, dir),
        Mode::Images => scroll_list(&mut state.images, dir),
        Mode::Networks => scroll_list(&mut state.networks, dir),
        Mode::Volumes => scroll_list(&mut state.volumes, dir),
        Mode::Events => scroll_events(&mut state.events, dir),
        Mode::Statistics => scroll_statistics(&mut state.statistics, dir),
        Mode::ContainerDetails(_) => scroll_details(&mut state.navigation, dir),
        Mode::Help => {
            state.navigation.help.scroll_offset = scroll_offset(state.navigation.help.scroll_offset, dir, usize::MAX);
        }
        Mode::Explorer(_) | Mode::ExplorerVolume(_, _) => scroll_explorer(&mut state.explorer, dir),
        _ => {}
    }
}

/// The title of tab `i`.
pub open spec fn tab_title(i: int) -> Seq<char> {
    if i == 0 { "Containers"@ }
    else if i == 1 { "Images"@ }
    else if i == 2 { "Networks"@ }
    else if i == 3 { "Volumes"@ }
    else if i == 4 { "Events"@ }
    else if i == 5 { "Statistics"@ }
    else { "Help"@ }
}

/// The width of the label of tab `i`: " Containers [running/total] " for
/// the first, " title " for the others.
pub open spec fn tab_label_len(i: int, running: nat, total: nat) -> int {
    if i == 0 {
        (" "@ + tab_title(0) + " ["@ + decimal(running) + "/"@ + decimal(total) + "] "@).len() as int
    } else {
        tab_title(i).len() as int + 2
    }
}

/// The tab whose label covers column `col`, looking from tab `i` on, whose
/// label starts at column `x`; one column of padding and a divider of three
/// separate the labels.
pub open spec fn tab_at(col: int, x: int, i: int, running: nat, total: nat) -> Option<usize>
    decreases 7 - i,
{
    if i < 0 || i >= 7 {
        None
    } else {
        let end = x + tab_label_len(i, running, total);
        if x <= col && col < end {
            Some(i as usize)
        } else {
            tab_at(col, end + 1 + (if i < 6 { 3int } else { 0int }), i + 1, running, total)
        }
    }
}

/// How many of the containers are running.
pub open spec fn running_count(items: Seq<ContainerSummary>) -> nat
    decreases items.len(),
{
    if items.len() == 0 {
        0
    } else {
        running_count(items.drop_last()) + (if items.last().state@ == "running"@ { 1nat } else { 0nat })
    }
}

/// The tab under column `col` of the tab bar.
pub open spec fn tab_from_col(col: u16, items: Seq<ContainerSummary>) -> Option<usize> {
    tab_at(col as int, 1, 0, running_count(items), items.len())
}

proof fn lemma_running_le(items: Seq<ContainerSummary>)
    ensures
        running_count(items) <= items.len(),
    decreases items.len(),
{
    if items.len() > 0 {
        lemma_running_le(items.drop_last());
    }
}

fn running_exec(items: &Vec<ContainerSummary>) -> (r: u64)
    ensures
        r == running_count(items@),
{
    let mut n: u64 = 0;
    let mut i: usize = 0;
    while i < items.len()
        invariant
            i <= items@.len(),
            n == running_count(items@.subrange(0, i as int)),
        decreases items@.len() - i,
    {
        let ghost sub = items@.subrange(0, i + 1);
        assert(sub.drop_last() =~= items@.subrange(0, i as int));
        proof {
            lemma_running_le(items@.subrange(0, i as int));
        }
        if str_eq(items[i].state.as_str(), "running") {
            n = n + 1;
        }
        i = i + 1;
    }
    assert(items@.subrange(0, i as int) =~= items@);
    n
}

fn decimal_len(n: u64) -> (r: u128)
    ensures
        r == decimal(n as nat).len(),
        r <= n as int + 1,
    decreases n,
{
    if n < 10 {
        1
    } else {
        let k = decimal_len(n / 10);
        k + 1
    }
}

fn tab_label_len_exec(i: u64, running: u64, total: u64) -> (r: u128)
    requires
        i < 7,
    ensures
        r == tab_label_len(i as int, running as nat, total as nat),
        r <= 18 + running as int + total as int,
{
    proof {
        reveal_strlit("Containers");
        reveal_strlit("Images");
        reveal_strlit("Networks");
        reveal_strlit("Volumes");
        reveal_strlit("Events");
        reveal_strlit("Statistics");
        reveal_strlit("Help");
        reveal_strlit(" ");
        reveal_strlit(" [");
        reveal_strlit("/");
        reveal_strlit("] ");
    }
    if i == 0 {
        16 + decimal_len(running) + decimal_len(total)
    } else if i == 1 {
        8
    } else if i == 2 {
        10
    } else if i == 3 {
        9
    } else if i == 4 {
        8
    } else if i == 5 {
        12
    } else {
        6
    }
}

/// The tab under column `col` of the tab bar (see [`tab_from_col`]).
pub fn tab_from_col_exec(col: u16, items: &Vec<ContainerSummary>) -> (r: Option<usize>)
    ensures
        r == tab_from_col(col, items@),
{
    let running = running_exec(items);
    let total = items.len() as u64;
    proof {
        lemma_running_le(items@);
    }
    let mut x: u128 = 1;
    let mut i: u64 = 0;
    while i < 7
        invariant
            i <= 7,
            running == running_count(items@),
            running <= total,
            total == items@.len(),
            x <= 1 + 22 * i + 2 * i * total,
            tab_at(col as int, x as int, i as int, running as nat, total as nat) == tab_from_col(col, items@),
        decreases 7 - i,
    {
        let w = tab_label_len_exec(i, running, total);
        assert(x + w + 4 <= 1 + 22 * (i + 1) + 2 * (i + 1) * total) by (nonlinear_arith)
            requires
                x <= 1 + 22 * i + 2 * i * total,
                w <= 18 + running + total,
                running <= total,
        ;
        assert(1 + 22 * (i + 1) + 2 * (i + 1) * total <= 1 + 22 * 7 + 2 * 7 * 0x1_0000_0000_0000_0000) by (nonlinear_arith)
            requires
                i < 7,
                total <= 0xffff_ffff_ffff_ffff,
        ;
        let end = x + w;
        if x <= col as u128 && (col as u128) < end {
            return Some(i as usize);
        }
        x = end + 1 + if i < 6 { 3 } else { 0 };
        i = i + 1;
    }
    None
}

/// The width of the data columns of the statistics table after the name.
pub open spec fn stat_width(i: int) -> int {
    if i == 0 { 8 } else if i == 1 { 18 } else if i == 2 { 14 } else if i == 3 { 14 } else { 6 }
}

/// The sort column of data column `i`, and whether it shares the column
/// with a second one (received with sent, read with written).
pub open spec fn stat_column_kind(i: int) -> (StatSort, bool) {
    if i == 0 { (StatSort::Cpu, false) }
    else if i == 1 { (StatSort::Memory, false) }
    else if i == 2 { (StatSort::NetRx, true) }
    else if i == 3 { (StatSort::BlockRead, true) }
    else { (StatSort::Pids, false) }
}

/// The data column covering inner column `c`, from column `i` on, which
/// starts at `accum`; one column of spacing between them.
pub open spec fn stat_column_from(c: int, accum: int, i: int) -> Option<(StatSort, bool)>
    decreases 5 - i,
{
    if i < 0 || i >= 5 {
        None
    } else if accum <= c && c < accum + stat_width(i) {
        Some(stat_column_kind(i))
    } else {
        stat_column_from(c, accum + stat_width(i) + 1, i + 1)
    }
}

/// The width of the name column for a terminal `term_width` wide: what the
/// data columns leave, at least 10.
pub open spec fn stat_name_width(term_width: u16) -> int {
    let rest = sat_sub(sat_sub(term_width as int, 2), 65);
    if rest > 10 { rest } else { 10 }
}

/// The statistics column under screen column `col`, and whether it is a
/// shared one.
pub open spec fn statistics_column(col: u16, term_width: u16) -> Option<(StatSort, bool)> {
    let inner = sat_sub(col as int, 1);
    let w0 = stat_name_width(term_width);
    if inner < w0 { Some((StatSort::Name, false)) } else { stat_column_from(inner, w0 + 1, 0) }
}

fn stat_width_exec(i: u32) -> (r: u32)
    ensures
        r == stat_width(i as int),
{
    if i == 0 { 8 } else if i == 1 { 18 } else if i == 2 { 14 } else if i == 3 { 14 } else { 6 }
}

fn stat_column_kind_exec(i: u32) -> (r: (StatSort, bool))
    ensures
        r == stat_column_kind(i as int),
{
    if i == 0 { (StatSort::Cpu, false) }
    else if i == 1 { (StatSort::Memory, false) }
    else if i == 2 { (StatSort::NetRx, true) }
    else if i == 3 { (StatSort::BlockRead, true) }
    else { (StatSort::Pids, false) }
}

/// The statistics column under screen column `col` (see
/// [`statistics_column`]).
pub fn statistics_column_exec(col: u16, term_width: u16) -> (r: Option<(StatSort, bool)>)
    ensures
        r == statistics_column(col, term_width),
{
    let inner: u32 = if col >= 1 { (col - 1) as u32 } else { 0 };
    let inner_width: u32 = if term_width >= 2 { (term_width - 2) as u32 } else { 0 };
    let rest: u32 = if inner_width > 65 { inner_width - 65 } else { 0 };
    let w0: u32 = if rest > 10 { rest } else { 10 };
    if inner < w0 {
        return Some((StatSort::Name, false));
    }
    let mut accum: u32 = w0 + 1;
    let mut i: u32 = 0;
    while i < 5
        invariant
            i <= 5,
            accum <= w0 + 1 + 19 * i,
            w0 <= 65536,
            stat_column_from(inner as int, accum as int, i as int) == statistics_column(col, term_width),
        decreases 5 - i,
    {
        let w = stat_width_exec(i);
        if accum <= inner && inner < accum + w {
            return Some(stat_column_kind_exec(i));
        }
        accum = accum + w + 1;
        i = i + 1;
    }
    None
}

/// The statistics after a click on the header of column `sort`: the same
/// column flips the direction, or moves to its second half when it is a
/// shared one; the other half of a shared column flips the direction; any
/// other column sorts ascending.
pub open spec fn header_clicked(t: StatisticsState, sort: StatSort, shared: bool) -> StatisticsState {
    let sibling = shared && (
        (sort == StatSort::NetRx && t.sort_by == StatSort::NetTx) || (sort == StatSort::NetTx && t.sort_by == StatSort::NetRx)
        || (sort == StatSort::BlockRead && t.sort_by == StatSort::BlockWrite)
        || (sort == StatSort::BlockWrite && t.sort_by == StatSort::BlockRead));
    if sort == t.sort_by {
        if shared {
            StatisticsState {
                sort_by: if sort == StatSort::NetRx { StatSort::NetTx } else if sort == StatSort::BlockRead { StatSort::BlockWrite } else { sort },
                ..t
            }
        } else {
            StatisticsState { sort_ascending: !t.sort_ascending, ..t }
        }
    } else if sibling {
        StatisticsState { sort_by: sort, sort_ascending: !t.sort_ascending, ..t }
    } else {
        StatisticsState { sort_by: sort, sort_ascending: true, ..t }
    }
}

fn click_header(t: &mut StatisticsState, sort: StatSort, shared: bool)
    ensures
        *final(t) == header_clicked(*old(t), sort, shared),
{
    let current = t.sort_by;
    let sibling = shared && (
        (sort == StatSort::NetRx && current == StatSort::NetTx) || (sort == StatSort::NetTx && current == StatSort::NetRx)
        || (sort == StatSort::BlockRead && current == StatSort::BlockWrite)
        || (sort == StatSort::BlockWrite && current == StatSort::BlockRead));
    if sort == current {
        if shared {
            t.sort_by = if sort == StatSort::NetRx { StatSort::NetTx } else if sort == StatSort::BlockRead { StatSort::BlockWrite } else { sort };
        } else {
            t.sort_ascending = !t.sort_ascending;
        }
    } else if sibling {
        t.sort_by = sort;
        t.sort_ascending = !t.sort_ascending;
    } else {
        t.sort_by = sort;
        t.sort_ascending = true;
    }
}

/// The rows of the containers table as drawn: for each group, in name
/// order, a header row (`None`) and then its containers' rows.
pub open spec fn visual_rows(items: Seq<ContainerSummary>, rows: Seq<usize>, names: Seq<Seq<char>>, n: int) -> Seq<Option<usize>>
    decreases n,
{
    if n <= 0 {
        Seq::empty()
    } else {
        visual_rows(items, rows, names, n - 1) + seq![None]
            + rows_in_group::<ContainerResource>(items, rows, names[n - 1]).map_values(|r: usize| Some(r))
    }
}

/// The first position of `x` in `s` at or after `k`.
pub open spec fn position_from(s: Seq<usize>, x: usize, k: int) -> Option<usize>
    decreases s.len() - k,
{
    if k < 0 || k >= s.len() {
        None
    } else if s[k] == x {
        Some(k as usize)
    } else {
        position_from(s, x, k + 1)
    }
}

/// The position in the rows of the container drawn on screen row `row`
/// (the table's rows start at screen row 5), if a container is drawn there.
pub open spec fn container_row_at(items: Seq<ContainerSummary>, rows: Seq<usize>, row: u16) -> Option<usize> {
    let names = group_names::<ContainerResource>(items, rows);
    let vr = visual_rows(items, rows, names, names.len() as int);
    let k = row - 5;
    if k < 0 || k >= vr.len() {
        None
    } else {
        match vr[k] {
            Some(fi) => position_from(rows, fi, 0),
            None => None,
        }
    }
}

proof fn lemma_visual_prefix(items: Seq<ContainerSummary>, rows: Seq<usize>, names: Seq<Seq<char>>, n: int, m: int)
    requires
        0 <= n <= m,
    ensures
        visual_rows(items, rows, names, n).len() <= visual_rows(items, rows, names, m).len(),
        visual_rows(items, rows, names, m).subrange(0, visual_rows(items, rows, names, n).len() as int)
            == visual_rows(items, rows, names, n),
    decreases m - n,
{
    if n < m {
        lemma_visual_prefix(items, rows, names, n, m - 1);
        let a = visual_rows(items, rows, names, n);
        let b = visual_rows(items, rows, names, m - 1);
        let c = visual_rows(items, rows, names, m);
        assert(c.subrange(0, b.len() as int) =~= b);
        assert(c.subrange(0, a.len() as int) =~= b.subrange(0, a.len() as int));
    } else {
        let a = visual_rows(items, rows, names, n);
        assert(a.subrange(0, a.len() as int) =~= a);
    }
}

fn position_exec(s: &Vec<usize>, x: usize) -> (r: Option<usize>)
    ensures
        r == position_from(s@, x, 0),
{
    let mut k: usize = 0;
    while k < s.len()
        invariant
            k <= s@.len(),
            position_from(s@, x, k as int) == position_from(s@, x, 0),
        decreases s@.len() - k,
    {
        if s[k] == x {
            return Some(k);
        }
        k = k + 1;
    }
    None
}

/// The position in the rows of the container drawn on screen row `row`
/// (see [`container_row_at`]).
pub fn container_filtered_idx_at_visual_row(items: &Vec<ContainerSummary>, rows: &Vec<usize>, row: u16) -> (r: Option<usize>)
    requires
        forall|i: int| 0 <= i < rows@.len() ==> #[trigger] rows@[i] < items@.len(),
    ensures
        r == container_row_at(items@, rows@, row),
{
    if row < 5 {
        return None;
    }
    let target: usize = (row - 5) as usize;
    let (keys, names) = group_keys::<ContainerResource>(items, rows);
    let ghost nv = char_views(names@);
    let ghost full = visual_rows(items@, rows@, nv, nv.len() as int);
    let mut cur: usize = 0;
    let mut n: usize = 0;
    while n < names.len()
        invariant
            n <= names@.len(),
            nv == char_views(names@),
            nv == group_names::<ContainerResource>(items@, rows@),
            full == visual_rows(items@, rows@, nv, nv.len() as int),
            keys@.len() == rows@.len(),
            forall|j: int| 0 <= j < rows@.len() ==> (#[trigger] keys@[j])@ == ContainerResource::spec_group(items@[rows@[j] as int]),
            cur == visual_rows(items@, rows@, nv, n as int).len(),
            cur <= target,
            target == row - 5,
        decreases names@.len() - n,
    {
        let ghost prefix = visual_rows(items@, rows@, nv, n as int);
        proof {
            lemma_visual_prefix(items@, rows@, nv, n + 1, nv.len() as int);
        }
        let ghost next = visual_rows(items@, rows@, nv, n + 1);
        let ghost group = rows_in_group::<ContainerResource>(items@, rows@, nv[n as int]);
        assert(next == prefix + seq![None] + group.map_values(|r: usize| Some(r)));
        if cur == target {
            assert(target < next.len());
            assert(next.len() <= full.len());
            assert(next[target as int] is None);
            assert(full.subrange(0, next.len() as int)[target as int] == full[target as int]);
            assert(full[target as int] is None);
            return None;
        }
        cur = cur + 1;
        let ghost pred = |r: usize| ContainerResource::spec_group(items@[r as int]) == nv[n as int];
        assert(group == rows@.filter(pred));
        let mut k: usize = 0;
        while k < rows.len()
            invariant
                n < names@.len(),
                k <= rows@.len(),
                nv == char_views(names@),
                nv == group_names::<ContainerResource>(items@, rows@),
                pred == (|r: usize| ContainerResource::spec_group(items@[r as int]) == nv[n as int]),
                full == visual_rows(items@, rows@, nv, nv.len() as int),
                next == prefix + seq![None] + group.map_values(|r: usize| Some(r)),
                group == rows@.filter(pred),
                full.subrange(0, next.len() as int) == next,
                next.len() <= full.len(),
                keys@.len() == rows@.len(),
                forall|j: int| 0 <= j < rows@.len() ==> (#[trigger] keys@[j])@ == ContainerResource::spec_group(items@[rows@[j] as int]),
                cur == prefix.len() + 1 + rows@.subrange(0, k as int).filter(pred).len(),
                cur <= target,
                target == row - 5,
            decreases rows@.len() - k,
        {
            let ghost part = rows@.subrange(0, k as int).filter(pred);
            let ghost tail = rows@.subrange(k + 1, rows@.len() as int);
            assert(rows@.subrange(0, k + 1) =~= rows@.subrange(0, k as int).push(rows@[k as int]));
            assert(rows@ =~= rows@.subrange(0, k + 1) + tail);
            assert(nv[n as int] == names@[n as int]@);
            proof {
                Seq::filter_distributes_over_add(rows@.subrange(0, k + 1), tail, pred);
                rows@.subrange(0, k as int).lemma_filter_push(rows@[k as int], pred);
                rows@.subrange(0, k as int).lemma_filter_len(pred);
            }
            if seq_eq(&keys[k], &names[n]) {
                assert(pred(rows@[k as int]));
                assert(group == part.push(rows@[k as int]) + tail.filter(pred));
                if cur == target {
                    let fi = rows[k];
                    assert(group.len() >= part.len() + 1);
                    assert(target < next.len());
                    assert(next.len() <= full.len());
                    assert(group[part.len() as int] == fi);
                    assert(next[target as int] == Some(fi));
                    assert(full.subrange(0, next.len() as int)[target as int] == full[target as int]);
                    assert(full[target as int] == Some(fi));
                    let r = position_exec(rows, fi);
                    assert(r == position_from(rows@, fi, 0));
                    return r;
                }
                cur = cur + 1;
            } else {
                assert(!pred(rows@[k as int]));
            }
            k = k + 1;
        }
        assert(rows@.subrange(0, k as int) =~= rows@);
        n = n + 1;
    }
    None
}

/// A click on the ".." row of a panel: the panel goes up to its parent
/// directory and lists it (the host panel stays where it is when its path
/// has no non-empty parent).
pub open spec fn parent_row_clicked(e0: ExplorerState, vol: Option<String>, is_host: bool, e1: ExplorerState, cmds: Seq<Command>) -> bool {
    if is_host {
        match path_parent(e0.host.path@) {
            Some(parent) if parent.len() > 0 => {
                &&& e1 == ExplorerState { host: e1.host, ..e0 }
                &&& opened_at(e0.host, e1.host, parent)
                &&& cmds.len() == 1 && lists_host_dir(parent, cmds[0])
            },
            _ => e1 == e0 && cmds.len() == 0,
        }
    } else {
        let parent = container_parent(e0.container.path@);
        &&& e1 == ExplorerState { container: e1.container, ..e0 }
        &&& opened_at(e0.container, e1.container, parent)
        &&& cmds.len() == 1 && lists_container_dir(vol, e0.container_id, parent, cmds[0])
    }
}

/// A click on table row `table_row` of a panel (not the ".." row): on an
/// entry it moves the cursor there, and a second click on the same
/// directory entry within 300 ms opens that directory.
pub open spec fn entry_clicked(e0: ExplorerState, vol: Option<String>, is_host: bool, table_row: usize, now: u64, e1: ExplorerState, cmds: Seq<Command>) -> bool {
    let p = if is_host { e0.host } else { e0.container };
    let item = if p.path@ != root() { (table_row - 1) as usize } else { table_row };
    if item < p.all_items@.len() {
        let entry = p.all_items@[item as int];
        let recent = match e0.last_click_time { Some(t) => sat_sub(now as int, t as int) < 300, None => false };
        let is_double = recent && e0.last_click_is_host == is_host && e0.last_click_item_index == item;
        let ec = ExplorerState { last_click_time: Some(now), last_click_is_host: is_host, last_click_item_index: item, ..e0 };
        if is_double && entry.is_dir {
            if is_host {
                let target = join_root(p.path@, entry.name@);
                &&& e1 == ExplorerState { host: e1.host, ..ec }
                &&& opened_at(ec.host, e1.host, target)
                &&& cmds.len() == 1 && lists_host_dir(target, cmds[0])
            } else {
                let target = join_dir(p.path@, entry.name@).push('/');
                &&& e1 == ExplorerState { container: e1.container, ..ec }
                &&& opened_at(ec.container, e1.container, target)
                &&& cmds.len() == 1 && lists_container_dir(vol, e0.container_id, target, cmds[0])
            }
        } else {
            &&& e1 == (if is_host {
                ExplorerState { host: ExplorerPanel { selected: table_row, ..ec.host }, ..ec }
            } else {
                ExplorerState { container: ExplorerPanel { selected: table_row, ..ec.container }, ..ec }
            })
            &&& cmds.len() == 0
        }
    } else {
        e1 == e0 && cmds.len() == 0
    }
}

/// The explorer after a left click on screen row `row` (below its title),
/// column `col`: the click focuses the panel under it (the host panel takes
/// the left 48% of the width), then acts on the row under it.
pub open spec fn explorer_clicked(e0: ExplorerState, vol: Option<String>, row: u16, col: u16, term_width: u16, now: u64, e1: ExplorerState, cmds: Seq<Command>) -> bool {
    let is_host = (col as int) < (term_width as int * 48) / 100;
    let ef = ExplorerState { focus: if is_host { ExplorerFocus::Left } else { ExplorerFocus::Right }, ..e0 };
    let p = if is_host { e0.host } else { e0.container };
    let sum = p.scroll_offset as int + (row as int - 1);
    let table_row = (if sum > usize::MAX { usize::MAX as int } else { sum }) as usize;
    if p.path@ != root() && table_row == 0 {
        parent_row_clicked(ExplorerState { last_click_time: None, ..ef }, vol, is_host, e1, cmds)
    } else {
        entry_clicked(ef, vol, is_host, table_row, now, e1, cmds)
    }
}

fn open_panel(p: &mut ExplorerPanel, path: String)
    ensures
        opened_at(*old(p), *final(p), path@),
{
    p.path = path;
    p.selected = 0;
    p.filter = String::new();
    p.filter_active = false;
    p.rename_active = false;
    p.rename_buffer = String::new();
}

fn one(c: Command) -> (r: Vec<Command>)
    ensures
        r@ == seq![c],
{
    let mut v: Vec<Command> = Vec::new();
    v.push(c);
    assert(v@ =~= seq![c]);
    v
}

fn container_list(vol: &Option<String>, cid: &String, path: String) -> (r: Command)
    ensures
        lists_container_dir(*vol, *cid, path@, r),
{
    match vol {
        Some(name) => Command::ListVolumeDir(name.clone(), path),
        None => Command::ListContainerDir(cid.clone(), path),
    }
}

fn click_parent_row(e: &mut ExplorerState, vol: &Option<String>, is_host: bool) -> (r: Vec<Command>)
    ensures
        parent_row_clicked(*old(e), *vol, is_host, *final(e), r@),
{
    if is_host {
        match parent_of(e.host.path.as_str()) {
            Some(parent) => {
                if !parent.as_str().is_empty() {
                    open_panel(&mut e.host, parent.clone());
                    return one(Command::ListHostDir(parent));
                }
            }
            None => {}
        }
        Vec::new()
    } else {
        let parent = container_parent_exec(e.container.path.as_str());
        open_panel(&mut e.container, parent.clone());
        one(container_list(vol, &e.container_id, parent))
    }
}

/// Handles a left click in the explorer (see [`explorer_clicked`]).
pub fn explorer_click(e: &mut ExplorerState, vol: &Option<String>, row: u16, col: u16, term_width: u16, now: u64) -> (r: Vec<Command>)
    requires
        row > 0,
    ensures
        explorer_clicked(*old(e), *vol, row, col, term_width, now, *final(e), r@),
{
    let left_width: u32 = (term_width as u32 * 48) / 100;
    let is_host = (col as u32) < left_width;
    e.focus = if is_host { ExplorerFocus::Left } else { ExplorerFocus::Right };
    let show_parent;
    let scroll_off;
    if is_host {
        show_parent = !is_root(e.host.path.as_str());
        scroll_off = e.host.scroll_offset;
    } else {
        show_parent = !is_root(e.container.path.as_str());
        scroll_off = e.container.scroll_offset;
    }
    let visual_row: usize = (row - 1) as usize;
    let table_row: usize = if scroll_off > usize::MAX - visual_row { usize::MAX } else { scroll_off + visual_row };
    if show_parent && table_row == 0 {
        e.last_click_time = None;
        return click_parent_row(e, vol, is_host);
    }
    click_entry(e, vol, is_host, table_row, now)
}

fn click_entry(e: &mut ExplorerState, vol: &Option<String>, is_host: bool, table_row: usize, now: u64) -> (r: Vec<Command>)
    requires
        !((if is_host { old(e).host } else { old(e).container }).path@ != root() && table_row == 0),
    ensures
        entry_clicked(*old(e), *vol, is_host, table_row, now, *final(e), r@),
{
    let show_parent = if is_host { !is_root(e.host.path.as_str()) } else { !is_root(e.container.path.as_str()) };
    let all_len = if is_host { e.host.all_items.len() } else { e.container.all_items.len() };
    let item = if show_parent { table_row - 1 } else { table_row };
    if item >= all_len {
        return Vec::new();
    }
    let name;
    let is_dir;
    if is_host {
        name = e.host.all_items[item].name.clone();
        is_dir = e.host.all_items[item].is_dir;
    } else {
        name = e.container.all_items[item].name.clone();
        is_dir = e.container.all_items[item].is_dir;
    }
    let recent = match e.last_click_time {
        Some(t) => (if now > t { now - t } else { 0 }) < 300,
        None => false,
    };
    let is_double = recent && e.last_click_is_host == is_host && e.last_click_item_index == item;
    e.last_click_time = Some(now);
    e.last_click_is_host = is_host;
    e.last_click_item_index = item;
    if is_double && is_dir {
        if is_host {
            let target = join_root_exec(e.host.path.as_str(), name.as_str());
            open_panel(&mut e.host, target.clone());
            one(Command::ListHostDir(target))
        } else {
            let joined = join_dir_exec(e.container.path.as_str(), name.as_str());
            let target = concat(joined.as_str(), "/");
            proof {
                reveal_strlit("/");
                assert(target@ =~= joined@.push('/'));
            }
            open_panel(&mut e.container, target.clone());
            one(container_list(vol, &e.container_id, target))
        }
    } else {
        if is_host {
            e.host.selected = table_row;
        } else {
            e.container.selected = table_row;
        }
        Vec::new()
    }
}

/// A left click on the body of a base view, at screen row `row >= 4`: on
/// the statistics' header row it changes the sort; on a row of a list it
/// moves the cursor there.
pub open spec fn body_clicked(s0: AppState, row: u16, col: u16, s1: AppState) -> bool {
    match stack(s0).last() {
        Mode::Statistics => if row == 4 {
            match statistics_column(col, s0.term_width) {
                Some((sort, shared)) => {
                    let t = header_clicked(s0.statistics, sort, shared);
                    &&& s1 == AppState { statistics: StatisticsState { items: s1.statistics.items, ..t }, ..s0 }
                    &&& s1.statistics.items@ == sorted_stats(t.items@, t.sort_by, t.sort_ascending)
                },
                None => s1 == s0,
            }
        } else {
            s1 == s0
        },
        Mode::Containers => if row == 4 {
            s1 == s0
        } else {
            match container_row_at(s0.containers.items@, s0.containers.filtered@, row) {
                Some(fi) => s1 == AppState { containers: ResourceState { selected: fi, ..s0.containers }, ..s0 },
                None => s1 == s0,
            }
        },
        Mode::Images => if row >= 5 && row - 5 < s0.images.filtered@.len() {
            s1 == AppState { images: ResourceState { selected: (row - 5) as usize, ..s0.images }, ..s0 }
        } else {
            s1 == s0
        },
        Mode::Networks => if row >= 5 && row - 5 < s0.networks.filtered@.len() {
            s1 == AppState { networks: ResourceState { selected: (row - 5) as usize, ..s0.networks }, ..s0 }
        } else {
            s1 == s0
        },
        Mode::Volumes => if row >= 5 && row - 5 < s0.volumes.filtered@.len() {
            s1 == AppState { volumes: ResourceState { selected: (row - 5) as usize, ..s0.volumes }, ..s0 }
        } else {
            s1 == s0
        },
        _ => s1 == s0,
    }
}

/// What a mouse event does: the wheel scrolls the current view; a left
/// click on the tab bar (row 1) of a base view switches tabs, one further
/// down acts on that view's body, and one in the explorer acts on its
/// panels.
pub open spec fn mouse_post(s0: AppState, row: u16, col: u16, kind: MouseClickKind, now: u64, s1: AppState, cmds: Seq<Command>) -> bool {
    let top = stack(s0).last();
    let base = tab_of(top) is Some;
    match kind {
        MouseClickKind::ScrollUp => scroll_post(s0, -1i32, s1) && cmds.len() == 0,
        MouseClickKind::ScrollDown => scroll_post(s0, 1i32, s1) && cmds.len() == 0,
        MouseClickKind::Left => if base && row == 1 {
            &&& cmds.len() == 0
            &&& match tab_from_col(col, s0.containers.items@) {
                Some(tab) => {
                    &&& s1 == AppState {
                        selected_tab: tab,
                        navigation: NavigationState { mode_stack: s1.navigation.mode_stack, ..s0.navigation },
                        ..s0
                    }
                    &&& stack(s1) == stack(s0).drop_last().push(mode_of_tab(tab))
                },
                None => s1 == s0,
            }
        } else if base && row >= 4 {
            cmds.len() == 0 && body_clicked(s0, row, col, s1)
        } else if (top is Explorer || top is ExplorerVolume) && row > 0 {
            &&& s1 == AppState { explorer: s1.explorer, ..s0 }
            &&& explorer_clicked(s0.explorer, vol_of(top), row, col, s0.term_width, now, s1.explorer, cmds)
        } else {
            s1 == s0 && cmds.len() == 0
        },
    }
}

fn click_body(state: &mut AppState, row: u16, col: u16)
    requires
        tab_of(stack(*old(state)).last()) is Some,
        row >= 4,
        old(state).containers.wf(),
    ensures
        body_clicked(*old(state), row, col, *final(state)),
{
    match state.navigation.mode_stack.current() {
        Mode::Statistics => {
            if row == 4 {
                if let Some((sort, shared)) = statistics_column_exec(col, state.term_width) {
                    click_header(&mut state.statistics, sort, shared);
                    resort_statistics(&mut state.statistics);
                }
            }
        }
        Mode::Containers => {
            if row != 4 {
                if let Some(fi) = container_filtered_idx_at_visual_row(&state.containers.items, &state.containers.filtered, row) {
                    state.containers.selected = fi;
                }
            }
        }
        Mode::Images => {
            if row >= 5 && ((row - 5) as usize) < state.images.filtered.len() {
                state.images.selected = (row - 5) as usize;
            }
        }
        Mode::Networks => {
            if row >= 5 && ((row - 5) as usize) < state.networks.filtered.len() {
                state.networks.selected = (row - 5) as usize;
            }
        }
        Mode::Volumes => {
            if row >= 5 && ((row - 5) as usize) < state.volumes.filtered.len() {
                state.volumes.selected = (row - 5) as usize;
            }
        }
        _ => {}
    }
}

/// Handles a mouse event (see [`mouse_post`]).
pub fn handle_mouse(state: &mut AppState, row: u16, col: u16, kind: MouseClickKind, now: u64) -> (r: Vec<Command>)
    requires
        old(state).containers.wf(),
    ensures
        mouse_post(*old(state), row, col, kind, now, *final(state), r@),
{
    let base = crate::mode::mode_to_tab(state.navigation.mode_stack.current()).is_some();
    match kind {
        MouseClickKind::ScrollUp => {
            scroll_state(state, -1);
            Vec::new()
        }
        MouseClickKind::ScrollDown => {
            scroll_state(state, 1);
            Vec::new()
        }
        MouseClickKind::Left => {
            if base && row == 1 {
                if let Some(tab) = tab_from_col_exec(col, &state.containers.items) {
                    state.selected_tab = tab;
                    state.navigation.mode_stack.replace_current(crate::mode::tab_to_mode(tab));
                }
                Vec::new()
            } else if base && row >= 4 {
                click_body(state, row, col);
                Vec::new()
            } else {
                let is_explorer = match state.navigation.mode_stack.current() {
                    Mode::Explorer(_) | Mode::ExplorerVolume(_, _) => true,
                    _ => false,
                };
                if is_explorer && row > 0 {
                    let vol = crate::reducers::explorer::volume_name(state);
                    let tw = state.term_width;
                    explorer_click(&mut state.explorer, &vol, row, col, tw, now)
                } else {
                    Vec::new()
                }
            }
        }
    }
}

} // verus!
