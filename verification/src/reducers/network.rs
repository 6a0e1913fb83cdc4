//! The networks view.

use vstd::prelude::*;
use crate::config::{NetworkColumns, OmdockerConfig};
use crate::event::{AppEvent, Command};
use crate::reducers::{column_nav, handle_column_nav};
use crate::resource::{clamp_selected, shown_indices, NetworkResource, ResourceState};
use crate::state::AppState;
use crate::text::str_eq;

verus! {

/// The network columns after toggling the one named `name`.
pub open spec fn toggled_network_column(c: NetworkColumns, name: Seq<char>) -> NetworkColumns {
    if name == "name"@ { NetworkColumns { show_name: !c.show_name, ..c } }
    else if name == "id"@ { NetworkColumns { show_id: !c.show_id, ..c } }
    else if name == "driver"@ { NetworkColumns { show_driver: !c.show_driver, ..c } }
    else if name == "scope"@ { NetworkColumns { show_scope: !c.show_scope, ..c } }
    else if name == "ipam"@ { NetworkColumns { show_ipam: !c.show_ipam, ..c } }
    else { c }
}

fn toggle_network_column(columns: &mut NetworkColumns, name: &str)
    ensures
        *final(columns) == toggled_network_column(*old(columns), name@),
{
    if str_eq(name, "name") {
        columns.show_name = !columns.show_name;
    } else if str_eq(name, "id") {
        columns.show_id = !columns.show_id;
    } else if str_eq(name, "driver") {
        columns.show_driver = !columns.show_driver;
    } else if str_eq(name, "scope") {
        columns.show_scope = !columns.show_scope;
    } else if str_eq(name, "ipam") {
        columns.show_ipam = !columns.show_ipam;
    }
}

/// What the networks reducer does with each event it handles; other events
/// change nothing.
pub open spec fn network_post(s0: AppState, event: AppEvent, now: u64, s1: AppState, cmds: Seq<Command>) -> bool {
    let n0 = s0.networks;
    match event {
        AppEvent::NetworksUpdated(list) => {
            let rows = shown_indices::<NetworkResource>(list@, list@.len() as int, Seq::empty(), n0.filter@);
            &&& s1 == AppState {
                networks: ResourceState {
                    items: s1.networks.items,
                    filtered: s1.networks.filtered,
                    selected: clamp_selected(n0.selected, rows.len()),
                    loading: false,
                    last_updated: Some(now),
                    ..n0
                },
                ..s0
            }
            &&& s1.networks.items@ == list@
            &&& s1.networks.filtered@ == rows
            &&& s1.networks.wf()
            &&& cmds.len() == 0
        },
        AppEvent::SelectNetwork(idx) => cmds.len() == 0 && if idx < n0.items@.len() {
            s1 == AppState { networks: ResourceState { selected: idx, ..n0 }, ..s0 }
        } else {
            s1 == s0
        },
        AppEvent::ToggleColumnPicker => s1 == AppState {
            networks: ResourceState { show_column_picker: !n0.show_column_picker, ..n0 },
            ..s0
        } && cmds.len() == 0,
        AppEvent::ToggleColumn(name) => if n0.show_column_picker {
            &&& s1 == AppState {
                networks: ResourceState { column_picker_selection: column_nav(name@, 5, n0.column_picker_selection), ..n0 },
                config: OmdockerConfig { network_columns: toggled_network_column(s0.config.network_columns, name@), ..s0.config },
                ..s0
            }
            &&& cmds == seq![Command::SaveConfig]
        } else {
            s1 == s0 && cmds.len() == 0
        },
        _ => s1 == s0 && cmds.len() == 0,
    }
}

fn networks_updated(state: &mut AppState, list: &Vec<crate::event::NetworkEntry>, now: u64)
    ensures
        network_post(*old(state), AppEvent::NetworksUpdated(*list), now, *final(state), Seq::empty()),
{
    proof {
        reveal_strlit("");
        assert(""@ =~= Seq::<char>::empty());
    }
    state.networks.update_items(list.clone(), "", now);
}

fn toggle_column(state: &mut AppState, name: &String) -> (r: Vec<Command>)
    ensures
        network_post(*old(state), AppEvent::ToggleColumn(*name), 0, *final(state), r@),
{
    let mut commands: Vec<Command> = Vec::new();
    if state.networks.show_column_picker {
        handle_column_nav(name.as_str(), 5, &mut state.networks.column_picker_selection);
        toggle_network_column(&mut state.config.network_columns, name.as_str());
        commands.push(Command::SaveConfig);
        assert(commands@ =~= seq![Command::SaveConfig]);
    }
    commands
}

/// The networks reducer (see [`network_post`]).
pub fn reduce(state: &mut AppState, event: &AppEvent, now: u64) -> (r: Vec<Command>)
    ensures
        network_post(*old(state), *event, now, *final(state), r@),
{
    match event {
        AppEvent::NetworksUpdated(list) => {
            networks_updated(state, list, now);
            Vec::new()
        }
        AppEvent::SelectNetwork(idx) => {
            if *idx < state.networks.items.len() {
                state.networks.selected = *idx;
            }
            Vec::new()
        }
        AppEvent::ToggleColumnPicker => {
            state.networks.show_column_picker = !state.networks.show_column_picker;
            Vec::new()
        }
        AppEvent::ToggleColumn(name) => toggle_column(state, name),
        _ => Vec::new(),
    }
}

} // verus!
