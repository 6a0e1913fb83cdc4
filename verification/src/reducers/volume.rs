//! The volumes view, with its multi-selection.

use vstd::prelude::*;
use crate::collections::{with, without};
use crate::config::{OmdockerConfig, VolumeColumns};
use crate::event::{AppEvent, Command, VolumeEntry};
use crate::reducers::container::with_all;
use crate::reducers::{column_nav, handle_column_nav};
use crate::resource::{clamp_selected, shown_indices, ResourceState, VolumeResource};
use crate::state::AppState;
use crate::text::str_eq;

verus! {

/// The volume columns after toggling the one named `name`.
pub open spec fn toggled_volume_column(c: VolumeColumns, name: Seq<char>) -> VolumeColumns {
    if name == "name"@ { VolumeColumns { show_name: !c.show_name, ..c } }
    else if name == "driver"@ { VolumeColumns { show_driver: !c.show_driver, ..c } }
    else if name == "size"@ { VolumeColumns { show_size: !c.show_size, ..c } }
    else if name == "mountpoint"@ { VolumeColumns { show_mountpoint: !c.show_mountpoint, ..c } }
    else { c }
}

fn toggle_volume_column(columns: &mut VolumeColumns, name: &str)
    ensures
        *final(columns) == toggled_volume_column(*old(columns), name@),
{
    if str_eq(name, "name") {
        columns.show_name = !columns.show_name;
    } else if str_eq(name, "driver") {
        columns.show_driver = !columns.show_driver;
    } else if str_eq(name, "size") {
        columns.show_size = !columns.show_size;
    } else if str_eq(name, "mountpoint") {
        columns.show_mountpoint = !columns.show_mountpoint;
    }
}

/// The names of the volumes the rows point at, in row order.
pub open spec fn row_names(items: Seq<VolumeEntry>, rows: Seq<usize>) -> Seq<Seq<char>>
    decreases rows.len(),
{
    if rows.len() == 0 {
        Seq::empty()
    } else if rows.last() < items.len() {
        row_names(items, rows.drop_last()).push(items[rows.last() as int].name@)
    } else {
        row_names(items, rows.drop_last())
    }
}

/// What the volumes reducer does with each event it handles; other events
/// change nothing.
pub open spec fn volume_post(s0: AppState, event: AppEvent, now: u64, s1: AppState, cmds: Seq<Command>) -> bool {
    let v0 = s0.volumes;
    match event {
        AppEvent::VolumesUpdated(list) => {
            let rows = shown_indices::<VolumeResource>(list@, list@.len() as int, Seq::empty(), v0.filter@);
            &&& s1 == AppState {
                volumes: ResourceState {
                    items: s1.volumes.items,
                    filtered: s1.volumes.filtered,
                    selected: clamp_selected(v0.selected, rows.len()),
                    loading: false,
                    last_updated: Some(now),
                    ..v0
                },
                ..s0
            }
            &&& s1.volumes.items@ == list@
            &&& s1.volumes.filtered@ == rows
            &&& s1.volumes.wf()
            &&& cmds.len() == 0
        },
        AppEvent::SelectVolume(idx) => cmds.len() == 0 && if idx < v0.items@.len() {
            s1 == AppState { volumes: ResourceState { selected: idx, ..v0 }, ..s0 }
        } else {
            s1 == s0
        },
        AppEvent::ToggleColumnPicker => s1 == AppState {
            volumes: ResourceState { show_column_picker: !v0.show_column_picker, ..v0 },
            ..s0
        } && cmds.len() == 0,
        AppEvent::ToggleSelectionMode => {
            &&& s1 == AppState { volumes: ResourceState { selection_mode: !v0.selection_mode, selected_ids: s1.volumes.selected_ids, ..v0 }, ..s0 }
            &&& s1.volumes.selected_ids@ == (if v0.selection_mode { Seq::empty() } else { v0.selected_ids@ })
            &&& cmds.len() == 0
        },
        AppEvent::ToggleSelectResource(id) => cmds.len() == 0 && if v0.selection_mode {
            &&& s1 == AppState { volumes: ResourceState { selected_ids: s1.volumes.selected_ids, ..v0 }, ..s0 }
            &&& s1.volumes.selected_ids@ == (if v0.selected_ids@.contains(id@) {
                without(v0.selected_ids@, id@)
            } else {
                with(v0.selected_ids@, id@)
            })
        } else {
            s1 == s0
        },
        AppEvent::SelectAllResources => cmds.len() == 0 && if v0.selection_mode {
            &&& s1 == AppState { volumes: ResourceState { selected_ids: s1.volumes.selected_ids, ..v0 }, ..s0 }
            &&& s1.volumes.selected_ids@ == with_all(v0.selected_ids@, row_names(v0.items@, v0.filtered@))
        } else {
            s1 == s0
        },
        AppEvent::ToggleColumn(name) => if v0.show_column_picker {
            &&& s1 == AppState {
                volumes: ResourceState { column_picker_selection: column_nav(name@, 4, v0.column_picker_selection), ..v0 },
                config: OmdockerConfig { volume_columns: toggled_volume_column(s0.config.volume_columns, name@), ..s0.config },
                ..s0
            }
            &&& cmds == seq![Command::SaveConfig]
        } else {
            s1 == s0 && cmds.len() == 0
        },
        _ => s1 == s0 && cmds.len() == 0,
    }
}

fn select_all(volumes: &mut ResourceState<VolumeResource>)
    ensures
        *final(volumes) == (ResourceState { selected_ids: final(volumes).selected_ids, ..*old(volumes) }),
        final(volumes).selected_ids@ == with_all(old(volumes).selected_ids@, row_names(old(volumes).items@, old(volumes).filtered@)),
{
    let ghost items = volumes.items@;
    let ghost rows = volumes.filtered@;
    let ghost base = volumes.selected_ids@;
    let mut names: Vec<String> = Vec::new();
    let mut i: usize = 0;
    while i < volumes.filtered.len()
        invariant
            i <= rows.len(),
            items == volumes.items@,
            rows == volumes.filtered@,
            crate::config::texts(names@) == row_names(items, rows.subrange(0, i as int)),
        decreases rows.len() - i,
    {
        let idx = volumes.filtered[i];
        assert(rows.subrange(0, i + 1).drop_last() =~= rows.subrange(0, i as int));
        if idx < volumes.items.len() {
            names.push(volumes.items[idx].name.clone());
        }
        assert(crate::config::texts(names@) =~= row_names(items, rows.subrange(0, i + 1)));
        i = i + 1;
    }
    assert(rows.subrange(0, i as int) =~= rows);
    let ghost all = crate::config::texts(names@);
    let mut j: usize = 0;
    while j < names.len()
        invariant
            j <= names@.len(),
            all == crate::config::texts(names@),
            *volumes == (ResourceState { selected_ids: volumes.selected_ids, ..*old(volumes) }),
            volumes.selected_ids@ == with_all(base, all.subrange(0, j as int)),
        decreases names@.len() - j,
    {
        volumes.selected_ids.insert(names[j].clone());
        assert(all.subrange(0, j + 1).drop_last() =~= all.subrange(0, j as int));
        j = j + 1;
    }
    assert(all.subrange(0, j as int) =~= all);
}

/// The volumes reducer (see [`volume_post`]).
pub fn reduce(state: &mut AppState, event: &AppEvent, now: u64) -> (r: Vec<Command>)
    ensures
        volume_post(*old(state), *event, now, *final(state), r@),
{
    let mut commands: Vec<Command> = Vec::new();
    match event {
        AppEvent::VolumesUpdated(list) => {
            proof {
                reveal_strlit("");
                assert(""@ =~= Seq::<char>::empty());
            }
            state.volumes.update_items(list.clone(), "", now);
        }
        AppEvent::SelectVolume(idx) => {
            if *idx < state.volumes.items.len() {
                state.volumes.selected = *idx;
            }
        }
        AppEvent::ToggleColumnPicker => {
            state.volumes.show_column_picker = !state.volumes.show_column_picker;
        }
        AppEvent::ToggleSelectionMode => {
            state.volumes.selection_mode = !state.volumes.selection_mode;
            if !state.volumes.selection_mode {
                state.volumes.selected_ids.clear();
            }
        }
        AppEvent::ToggleSelectResource(id) => {
            if state.volumes.selection_mode {
                if state.volumes.selected_ids.contains(id.as_str()) {
                    state.volumes.selected_ids.remove(id.as_str());
                } else {
                    state.volumes.selected_ids.insert(id.clone());
                }
            }
        }
        AppEvent::SelectAllResources => {
            if state.volumes.selection_mode {
                select_all(&mut state.volumes);
            }
        }
        AppEvent::ToggleColumn(name) => {
            if state.volumes.show_column_picker {
                handle_column_nav(name.as_str(), 4, &mut state.volumes.column_picker_selection);
                toggle_volume_column(&mut state.config.volume_columns, name.as_str());
                commands.push(Command::SaveConfig);
            }
        }
        _ => {}
    }
    proof {
        if commands@.len() == 1 {
            assert(commands@ =~= seq![commands@[0]]);
        }
    }
    commands
}

} // verus!
