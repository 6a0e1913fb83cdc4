//! The containers view: the list, its filters, selection mode, and the
//! start, stop, restart and delete requests.

use vstd::prelude::*;
use crate::collections::{with, without};
use crate::config::ContainerColumns;
use crate::event::{AppEvent, Command, ContainerSummary};
use crate::reducers::{column_nav, handle_column_nav};
use crate::resource::{clamp_selected, grouped_rows, shown_indices, ContainerResource, ResourceState};
use crate::state::{AppState, ContainerStateExtra};
use crate::text::{owned, str_eq};

verus! {

/// The rows and the cursor of the containers list after refiltering with
/// status filter `status` and regrouping.
pub open spec fn refiltered(c: ResourceState<ContainerResource>, status: Seq<char>) -> (Seq<usize>, usize) {
    let rows = shown_indices::<ContainerResource>(c.items@, c.items@.len() as int, status, c.filter@);
    let sel = clamp_selected(c.selected, rows.len());
    let grouped = grouped_rows::<ContainerResource>(c.items@, rows);
    (grouped, clamp_selected(sel, grouped.len()))
}

/// The containers list refiltered by the state's status filter, everything
/// else unchanged.
pub open spec fn refilter_post(s0: AppState, s1: AppState) -> bool {
    let r = refiltered(s0.containers, s0.container_extra.status_filter@);
    &&& s1 == AppState {
        containers: ResourceState { filtered: s1.containers.filtered, selected: r.1, ..s0.containers },
        ..s0
    }
    &&& s1.containers.filtered@ == r.0
    &&& s1.containers.wf()
}

fn refilter(state: &mut AppState)
    ensures
        refilter_post(*old(state), *final(state)),
{
    let status = state.container_extra.status_filter.clone();
    state.containers.apply_filter(status.as_str());
    state.containers.reorder_by_group();
}

/// The id of the container under the cursor, if the cursor is on one.
pub open spec fn selected_id(c: ResourceState<ContainerResource>) -> Option<Seq<char>> {
    if c.selected < c.filtered@.len() && c.filtered@[c.selected as int] < c.items@.len() {
        Some(c.items@[c.filtered@[c.selected as int] as int].id@)
    } else {
        None
    }
}

/// The first row at or after `k` showing a container with id `id`.
pub open spec fn find_row(items: Seq<ContainerSummary>, rows: Seq<usize>, id: Seq<char>, k: int) -> Option<int>
    decreases rows.len() - k,
{
    if k < 0 || k >= rows.len() {
        None
    } else if rows[k] < items.len() && items[rows[k] as int].id@ == id {
        Some(k)
    } else {
        find_row(items, rows, id, k + 1)
    }
}

proof fn lemma_find_row(items: Seq<ContainerSummary>, rows: Seq<usize>, id: Seq<char>, k: int)
    requires
        0 <= k,
    ensures
        find_row(items, rows, id, k) matches Some(p) ==> k <= p < rows.len(),
    decreases rows.len() - k,
{
    if k < rows.len() && !(rows[k] < items.len() && items[rows[k] as int].id@ == id) {
        lemma_find_row(items, rows, id, k + 1);
    }
}

fn find_row_exec(items: &Vec<ContainerSummary>, rows: &Vec<usize>, id: &str) -> (r: Option<usize>)
    ensures
        r matches Some(p) ==> find_row(items@, rows@, id@, 0) == Some(p as int),
        r is None ==> find_row(items@, rows@, id@, 0) is None,
{
    proof {
        lemma_find_row(items@, rows@, id@, 0);
    }
    let mut k: usize = 0;
    while k < rows.len()
        invariant
            k <= rows@.len(),
            find_row(items@, rows@, id@, k as int) == find_row(items@, rows@, id@, 0),
        decreases rows@.len() - k,
    {
        if rows[k] < items.len() && str_eq(items[rows[k]].id.as_str(), id) {
            return Some(k);
        }
        k = k + 1;
    }
    None
}

/// A fresh list of containers: it replaces the items, ends loading, marks
/// the time and the daemon as connected, refilters, and keeps the cursor on
/// the container it was on when that container is still shown.
pub open spec fn updated_post(s0: AppState, containers: Seq<ContainerSummary>, now: u64, s1: AppState) -> bool {
    let c0 = s0.containers;
    let mid = ResourceState { items: s1.containers.items, loading: false, last_updated: Some(now), ..c0 };
    let r = refiltered(mid, s0.container_extra.status_filter@);
    &&& s1.containers.items@ == containers
    &&& s1 == AppState {
        containers: ResourceState { filtered: s1.containers.filtered, items: s1.containers.items, selected: s1.containers.selected, loading: false, last_updated: Some(now), ..c0 },
        container_extra: ContainerStateExtra { docker_connected: true, ..s0.container_extra },
        ..s0
    }
    &&& s1.containers.filtered@ == r.0
    &&& s1.containers.selected == (match selected_id(c0) {
        Some(id) => match find_row(containers, r.0, id, 0) {
            Some(p) => p as usize,
            None => r.1,
        },
        None => r.1,
    })
    &&& s1.containers.wf()
}

fn containers_updated(state: &mut AppState, containers: &Vec<ContainerSummary>, now: u64)
    ensures
        updated_post(*old(state), containers@, now, *final(state)),
{
    let prev: Option<String> = if state.containers.selected < state.containers.filtered.len()
        && state.containers.filtered[state.containers.selected] < state.containers.items.len() {
        Some(state.containers.items[state.containers.filtered[state.containers.selected]].id.clone())
    } else {
        None
    };
    state.containers.items = containers.clone();
    assert(state.containers.items@ =~= containers@);
    state.containers.loading = false;
    state.containers.last_updated = Some(now);
    state.container_extra.docker_connected = true;
    refilter(state);
    if let Some(id) = prev {
        if let Some(pos) = find_row_exec(&state.containers.items, &state.containers.filtered, id.as_str()) {
            state.containers.selected = pos;
        }
    }
}

/// `s` with every name of `ids` added, in order.
pub open spec fn with_all(s: Seq<Seq<char>>, ids: Seq<Seq<char>>) -> Seq<Seq<char>>
    decreases ids.len(),
{
    if ids.len() == 0 { s } else { with(with_all(s, ids.drop_last()), ids.last()) }
}

/// The ids of the containers the rows point at, in row order.
pub open spec fn row_ids(items: Seq<ContainerSummary>, rows: Seq<usize>) -> Seq<Seq<char>>
    decreases rows.len(),
{
    if rows.len() == 0 {
        Seq::empty()
    } else if rows.last() < items.len() {
        row_ids(items, rows.drop_last()).push(items[rows.last() as int].id@)
    } else {
        row_ids(items, rows.drop_last())
    }
}

/// Whether the container with id `id` is listed as running.
pub open spec fn is_running(items: Seq<ContainerSummary>, id: Seq<char>) -> bool {
    match crate::reducers::navigation::find_container(items, id, 0) {
        Some(k) => items[k].state@ == "running"@,
        None => false,
    }
}

/// The stopping and starting sets after toggling the first `n` ids: running
/// containers are marked stopping, the others starting.
pub open spec fn toggled(items: Seq<ContainerSummary>, stopping: Seq<Seq<char>>, starting: Seq<Seq<char>>, ids: Seq<String>, n: int) -> (Seq<Seq<char>>, Seq<Seq<char>>)
    decreases n,
{
    if n <= 0 {
        (stopping, starting)
    } else {
        let prev = toggled(items, stopping, starting, ids, n - 1);
        if is_running(items, ids[n - 1]@) {
            (with(prev.0, ids[n - 1]@), prev.1)
        } else {
            (prev.0, with(prev.1, ids[n - 1]@))
        }
    }
}

/// The next status filter in the cycle all, running, exited, paused.
pub open spec fn next_status(s: Seq<char>) -> Seq<char> {
    if s.len() == 0 { "running"@ } else if s == "running"@ { "exited"@ } else if s == "exited"@ { "paused"@ } else { Seq::empty() }
}

/// The container columns after toggling the one named `name`.
pub open spec fn toggled_column(c: ContainerColumns, name: Seq<char>) -> ContainerColumns {
    if name == "name"@ { ContainerColumns { show_name: !c.show_name, ..c } }
    else if name == "image"@ { ContainerColumns { show_image: !c.show_image, ..c } }
    else if name == "state"@ { ContainerColumns { show_state: !c.show_state, ..c } }
    else if name == "ports"@ { ContainerColumns { show_ports: !c.show_ports, ..c } }
    else { c }
}

/// What the containers reducer does with each event it handles; other
/// events change nothing.
pub open spec fn container_post(s0: AppState, event: AppEvent, now: u64, s1: AppState, cmds: Seq<Command>) -> bool {
    let x0 = s0.container_extra;
    match event {
        AppEvent::ContainersRefreshNeeded => s1 == s0 && cmds == seq![Command::RefreshContainers],
        AppEvent::ContainersUpdated(list) => updated_post(s0, list@, now, s1) && cmds.len() == 0,
        AppEvent::SelectContainer(idx) => cmds.len() == 0 && if idx < s0.containers.filtered@.len() {
            s1 == AppState { containers: ResourceState { selected: idx, ..s0.containers }, ..s0 }
        } else {
            s1 == s0
        },
        AppEvent::FilterContainers(q) => {
            let mid = AppState {
                containers: ResourceState {
                    filter: q,
                    filter_active: if q@.len() == 0 { false } else { s0.containers.filter_active },
                    ..s0.containers
                },
                ..s0
            };
            refilter_post(mid, s1) && cmds.len() == 0
        },
        AppEvent::ActivateFilter => s1 == AppState { containers: ResourceState { filter_active: true, ..s0.containers }, ..s0 } && cmds.len() == 0,
        AppEvent::RestartContainer(id) => s1 == s0 && cmds == seq![Command::RestartContainer(id)],
        AppEvent::StopContainer(id) => {
            &&& s1 == AppState { container_extra: ContainerStateExtra { stopping_containers: s1.container_extra.stopping_containers, ..x0 }, ..s0 }
            &&& s1.container_extra.stopping_containers@ == with(x0.stopping_containers@, id@)
            &&& cmds == seq![Command::StopContainer(id)]
        },
        AppEvent::ContainerStopped(id) => {
            &&& s1 == AppState {
                container_extra: ContainerStateExtra {
                    stopping_containers: s1.container_extra.stopping_containers,
                    starting_containers: s1.container_extra.starting_containers,
                    ..x0
                },
                ..s0
            }
            &&& s1.container_extra.stopping_containers@ == without(x0.stopping_containers@, id@)
            &&& s1.container_extra.starting_containers@ == without(x0.starting_containers@, id@)
            &&& cmds.len() == 0
        },
        AppEvent::ContainerStarted(id) => {
            &&& s1 == AppState { container_extra: ContainerStateExtra { starting_containers: s1.container_extra.starting_containers, ..x0 }, ..s0 }
            &&& s1.container_extra.starting_containers@ == without(x0.starting_containers@, id@)
            &&& cmds.len() == 0
        },
        AppEvent::StartContainer(id) => s1 == s0 && cmds == seq![Command::StartContainer(id)],
        AppEvent::ContainerDeleted(id) => {
            &&& s1 == AppState { container_extra: ContainerStateExtra { deleting_containers: s1.container_extra.deleting_containers, ..x0 }, ..s0 }
            &&& s1.container_extra.deleting_containers@ == without(x0.deleting_containers@, id@)
            &&& cmds.len() == 0
        },
        AppEvent::ToggleSelectionMode => {
            &&& s1 == AppState { container_extra: ContainerStateExtra { selection_mode: !x0.selection_mode, selected_ids: s1.container_extra.selected_ids, ..x0 }, ..s0 }
            &&& s1.container_extra.selected_ids@ == (if x0.selection_mode { Seq::empty() } else { x0.selected_ids@ })
            &&& cmds.len() == 0
        },
        AppEvent::ToggleSelectContainer(id) => cmds.len() == 0 && if x0.selection_mode {
            &&& s1 == AppState { container_extra: ContainerStateExtra { selected_ids: s1.container_extra.selected_ids, ..x0 }, ..s0 }
            &&& s1.container_extra.selected_ids@ == (if x0.selected_ids@.contains(id@) {
                without(x0.selected_ids@, id@)
            } else {
                with(x0.selected_ids@, id@)
            })
        } else {
            s1 == s0
        },
        AppEvent::SelectAllContainers => cmds.len() == 0 && if x0.selection_mode {
            &&& s1 == AppState { container_extra: ContainerStateExtra { selected_ids: s1.container_extra.selected_ids, ..x0 }, ..s0 }
            &&& s1.container_extra.selected_ids@ == with_all(x0.selected_ids@, row_ids(s0.containers.items@, s0.containers.filtered@))
        } else {
            s1 == s0
        },
        AppEvent::ToggleColumnPicker => s1 == AppState {
            containers: ResourceState { show_column_picker: !s0.containers.show_column_picker, ..s0.containers },
            ..s0
        } && cmds.len() == 0,
        AppEvent::ToggleColumn(name) => if s0.containers.show_column_picker {
            &&& s1 == AppState {
                containers: ResourceState {
                    column_picker_selection: column_nav(name@, 4, s0.containers.column_picker_selection),
                    ..s0.containers
                },
                config: crate::config::OmdockerConfig {
                    container_columns: toggled_column(s0.config.container_columns, name@),
                    ..s0.config
                },
                ..s0
            }
            &&& cmds == seq![Command::SaveConfig]
        } else {
            s1 == s0 && cmds.len() == 0
        },
        AppEvent::CycleStatusFilter => {
            let mid = AppState {
                containers: ResourceState { selected: 0, ..s0.containers },
                container_extra: ContainerStateExtra { status_filter: s1.container_extra.status_filter, ..x0 },
                ..s0
            };
            &&& s1.container_extra.status_filter@ == next_status(x0.status_filter@)
            &&& refilter_post(mid, s1)
            &&& cmds.len() == 0
        },
        AppEvent::BatchToggleContainers(ids) => {
            let t = toggled(s0.containers.items@, x0.stopping_containers@, x0.starting_containers@, ids@, ids@.len() as int);
            &&& s1 == AppState {
                container_extra: ContainerStateExtra {
                    stopping_containers: s1.container_extra.stopping_containers,
                    starting_containers: s1.container_extra.starting_containers,
                    ..x0
                },
                ..s0
            }
            &&& s1.container_extra.stopping_containers@ == t.0
            &&& s1.container_extra.starting_containers@ == t.1
            &&& cmds.len() == 1 && cmds[0] is BatchToggleContainers && cmds[0]->BatchToggleContainers_0@ == ids@
        },
        _ => s1 == s0 && cmds.len() == 0,
    }
}

fn select_all(state: &mut AppState)
    ensures
        *final(state) == (AppState {
            container_extra: ContainerStateExtra { selected_ids: final(state).container_extra.selected_ids, ..old(state).container_extra },
            ..*old(state)
        }),
        final(state).container_extra.selected_ids@ == with_all(old(state).container_extra.selected_ids@, row_ids(old(state).containers.items@, old(state).containers.filtered@)),
{
    let ghost items = state.containers.items@;
    let ghost rows = state.containers.filtered@;
    let ghost base = state.container_extra.selected_ids@;
    let mut ids: Vec<String> = Vec::new();
    let mut i: usize = 0;
    while i < state.containers.filtered.len()
        invariant
            i <= rows.len(),
            items == state.containers.items@,
            rows == state.containers.filtered@,
            crate::config::texts(ids@) == row_ids(items, rows.subrange(0, i as int)),
        decreases rows.len() - i,
    {
        let idx = state.containers.filtered[i];
        assert(rows.subrange(0, i + 1).drop_last() =~= rows.subrange(0, i as int));
        if idx < state.containers.items.len() {
            ids.push(state.containers.items[idx].id.clone());
            assert(crate::config::texts(ids@) =~= row_ids(items, rows.subrange(0, i + 1)));
        } else {
            assert(crate::config::texts(ids@) =~= row_ids(items, rows.subrange(0, i + 1)));
        }
        i = i + 1;
    }
    assert(rows.subrange(0, i as int) =~= rows);
    let ghost all = crate::config::texts(ids@);
    let mut j: usize = 0;
    while j < ids.len()
        invariant
            j <= ids@.len(),
            all == crate::config::texts(ids@),
            *state == (AppState {
                container_extra: ContainerStateExtra { selected_ids: state.container_extra.selected_ids, ..old(state).container_extra },
                ..*old(state)
            }),
            state.container_extra.selected_ids@ == with_all(base, all.subrange(0, j as int)),
        decreases ids@.len() - j,
    {
        state.container_extra.selected_ids.insert(ids[j].clone());
        assert(all.subrange(0, j + 1).drop_last() =~= all.subrange(0, j as int));
        j = j + 1;
    }
    assert(all.subrange(0, j as int) =~= all);
}

fn batch_toggle(state: &mut AppState, ids: &Vec<String>)
    ensures
        *final(state) == (AppState {
            container_extra: ContainerStateExtra {
                stopping_containers: final(state).container_extra.stopping_containers,
                starting_containers: final(state).container_extra.starting_containers,
                ..old(state).container_extra
            },
            ..*old(state)
        }),
        (final(state).container_extra.stopping_containers@, final(state).container_extra.starting_containers@)
            == toggled(old(state).containers.items@, old(state).container_extra.stopping_containers@,
                old(state).container_extra.starting_containers@, ids@, ids@.len() as int),
{
    let mut i: usize = 0;
    while i < ids.len()
        invariant
            i <= ids@.len(),
            *state == (AppState {
                container_extra: ContainerStateExtra {
                    stopping_containers: state.container_extra.stopping_containers,
                    starting_containers: state.container_extra.starting_containers,
                    ..old(state).container_extra
                },
                ..*old(state)
            }),
            (state.container_extra.stopping_containers@, state.container_extra.starting_containers@)
                == toggled(old(state).containers.items@, old(state).container_extra.stopping_containers@,
                    old(state).container_extra.starting_containers@, ids@, i as int),
        decreases ids@.len() - i,
    {
        let running = match crate::reducers::navigation::position_of_container(&state.containers.items, ids[i].as_str()) {
            Some(k) => str_eq(state.containers.items[k].state.as_str(), "running"),
            None => false,
        };
        if running {
            state.container_extra.stopping_containers.insert(ids[i].clone());
        } else {
            state.container_extra.starting_containers.insert(ids[i].clone());
        }
        i = i + 1;
    }
}

fn toggle_column(columns: &mut ContainerColumns, name: &str)
    ensures
        *final(columns) == toggled_column(*old(columns), name@),
{
    if str_eq(name, "name") {
        columns.show_name = !columns.show_name;
    } else if str_eq(name, "image") {
        columns.show_image = !columns.show_image;
    } else if str_eq(name, "state") {
        columns.show_state = !columns.show_state;
    } else if str_eq(name, "ports") {
        columns.show_ports = !columns.show_ports;
    }
}

fn next_status_exec(s: &str) -> (r: String)
    ensures
        r@ == next_status(s@),
{
    if s.is_empty() {
        owned("running")
    } else if str_eq(s, "running") {
        owned("exited")
    } else if str_eq(s, "exited") {
        owned("paused")
    } else {
        String::new()
    }
}

fn reduce_list(state: &mut AppState, event: &AppEvent, now: u64) -> (r: Vec<Command>)
    requires
        event is ContainersRefreshNeeded || event is ContainersUpdated || event is SelectContainer || event is FilterContainers || event is ActivateFilter || event is CycleStatusFilter,
    ensures
        container_post(*old(state), *event, now, *final(state), r@),
{
    let mut commands: Vec<Command> = Vec::new();
    match event {
        AppEvent::ContainersRefreshNeeded => {
            commands.push(Command::RefreshContainers);
        }
        AppEvent::ContainersUpdated(list) => {
            containers_updated(state, list, now);
        }
        AppEvent::SelectContainer(idx) => {
            if *idx < state.containers.filtered.len() {
                state.containers.selected = *idx;
            }
        }
        AppEvent::FilterContainers(q) => {
            state.containers.filter = q.clone();
            if state.containers.filter.as_str().is_empty() {
                state.containers.filter_active = false;
            }
            refilter(state);
        }
        AppEvent::ActivateFilter => {
            state.containers.filter_active = true;
        }
        AppEvent::CycleStatusFilter => {
            state.container_extra.status_filter = next_status_exec(state.container_extra.status_filter.as_str());
            state.containers.selected = 0;
            refilter(state);
        }
        _ => {}
    }
    proof {
        if commands@.len() == 1 {
            assert(commands@ =~= seq![commands@[0]]);
        }
    }
    commands
}

fn reduce_life(state: &mut AppState, event: &AppEvent, now: u64) -> (r: Vec<Command>)
    requires
        event is RestartContainer || event is StopContainer || event is ContainerStopped || event is ContainerStarted || event is StartContainer || event is ContainerDeleted || event is BatchToggleContainers,
    ensures
        container_post(*old(state), *event, now, *final(state), r@),
{
    let mut commands: Vec<Command> = Vec::new();
    match event {
        AppEvent::RestartContainer(id) => commands.push(Command::RestartContainer(id.clone())),
        AppEvent::StopContainer(id) => {
            state.container_extra.stopping_containers.insert(id.clone());
            commands.push(Command::StopContainer(id.clone()));
        }
        AppEvent::ContainerStopped(id) => {
            state.container_extra.stopping_containers.remove(id.as_str());
            state.container_extra.starting_containers.remove(id.as_str());
        }
        AppEvent::ContainerStarted(id) => {
            state.container_extra.starting_containers.remove(id.as_str());
        }
        AppEvent::StartContainer(id) => commands.push(Command::StartContainer(id.clone())),
        AppEvent::ContainerDeleted(id) => {
            state.container_extra.deleting_containers.remove(id.as_str());
        }
        AppEvent::BatchToggleContainers(ids) => {
            batch_toggle(state, ids);
            let copy = ids.clone();
            assert(copy@ =~= ids@);
            commands.push(Command::BatchToggleContainers(copy));
        }
        _ => {}
    }
    proof {
        if commands@.len() == 1 {
            assert(commands@ =~= seq![commands@[0]]);
        }
    }
    commands
}

fn reduce_sel(state: &mut AppState, event: &AppEvent, now: u64) -> (r: Vec<Command>)
    requires
        event is ToggleSelectionMode || event is ToggleSelectContainer || event is SelectAllContainers || event is ToggleColumnPicker || event is ToggleColumn,
    ensures
        container_post(*old(state), *event, now, *final(state), r@),
{
    let mut commands: Vec<Command> = Vec::new();
    match event {
        AppEvent::ToggleSelectionMode => {
            state.container_extra.selection_mode = !state.container_extra.selection_mode;
            if !state.container_extra.selection_mode {
                state.container_extra.selected_ids.clear();
            }
        }
        AppEvent::ToggleSelectContainer(id) => {
            if state.container_extra.selection_mode {
                if state.container_extra.selected_ids.contains(id.as_str()) {
                    state.container_extra.selected_ids.remove(id.as_str());
                } else {
                    state.container_extra.selected_ids.insert(id.clone());
                }
            }
        }
        AppEvent::SelectAllContainers => {
            if state.container_extra.selection_mode {
                select_all(state);
            }
        }
        AppEvent::ToggleColumnPicker => {
            state.containers.show_column_picker = !state.containers.show_column_picker;
        }
        AppEvent::ToggleColumn(name) => {
            if state.containers.show_column_picker {
                handle_column_nav(name.as_str(), 4, &mut state.containers.column_picker_selection);
                toggle_column(&mut state.config.container_columns, name.as_str());
                commands.push(Command::SaveConfig);
            }
        }
        _ => {}
    }
    proof {
        if commands@.len() == 1 {
            assert(commands@ =~= seq![commands@[0]]);
        }
    }
    commands
}

/// The containers reducer (see [`container_post`]).
pub fn reduce(state: &mut AppState, event: &AppEvent, now: u64) -> (r: Vec<Command>)
    ensures
        container_post(*old(state), *event, now, *final(state), r@),
{
    match event {
        AppEvent::ContainersRefreshNeeded => reduce_list(state, event, now),
        AppEvent::ContainersUpdated(..) => reduce_list(state, event, now),
        AppEvent::SelectContainer(..) => reduce_list(state, event, now),
        AppEvent::FilterContainers(..) => reduce_list(state, event, now),
        AppEvent::ActivateFilter => reduce_list(state, event, now),
        AppEvent::CycleStatusFilter => reduce_list(state, event, now),
        AppEvent::RestartContainer(..) => reduce_life(state, event, now),
        AppEvent::StopContainer(..) => reduce_life(state, event, now),
        AppEvent::ContainerStopped(..) => reduce_life(state, event, now),
        AppEvent::ContainerStarted(..) => reduce_life(state, event, now),
        AppEvent::StartContainer(..) => reduce_life(state, event, now),
        AppEvent::ContainerDeleted(..) => reduce_life(state, event, now),
        AppEvent::BatchToggleContainers(..) => reduce_life(state, event, now),
        AppEvent::ToggleSelectionMode => reduce_sel(state, event, now),
        AppEvent::ToggleSelectContainer(..) => reduce_sel(state, event, now),
        AppEvent::SelectAllContainers => reduce_sel(state, event, now),
        AppEvent::ToggleColumnPicker => reduce_sel(state, event, now),
        AppEvent::ToggleColumn(..) => reduce_sel(state, event, now),
        _ => Vec::new(),
    }
}

} // verus!
