//! Keys in the list views: containers, images, networks and volumes.

use vstd::prelude::*;
use crate::event::{AppEvent, ConfirmAction, ContainerSummary, ImageEntry, NetworkEntry, VolumeEntry};
use crate::handlers::{filter_action, handle_filter_input, FilterAction, KeyEvent, KeyResult};
use crate::keymap::{any_matches, control, no_mods, shift, KeyCode, KeyMap, KeyModifiers};
use crate::mode::Mode;
use crate::resource::{ContainerResource, ImageResource, NetworkResource, Resource, ResourceState, VolumeResource};
use crate::state::AppState;
use crate::text::{concat, decimal, owned, push_decimal, str_eq};

verus! {

/// The item under the cursor of a list: the item of the cursor's row.
pub open spec fn selected_item<T: Resource>(l: ResourceState<T>) -> Option<T::Summary> {
    if l.selected < l.filtered@.len() && l.filtered@[l.selected as int] < l.items@.len() {
        Some(l.items@[l.filtered@[l.selected as int] as int])
    } else {
        None
    }
}

/// The item at the cursor's position among all items (ignoring the rows).
pub open spec fn item_at_cursor<T: Resource>(l: ResourceState<T>) -> Option<T::Summary> {
    if l.selected < l.items@.len() { Some(l.items@[l.selected as int]) } else { None }
}

fn selected_exec<T: Resource>(l: &ResourceState<T>) -> (r: Option<&T::Summary>)
    ensures
        (match r { Some(x) => Some(*x), None => None }) == selected_item(*l),
{
    if l.selected < l.filtered.len() && l.filtered[l.selected] < l.items.len() {
        Some(&l.items[l.filtered[l.selected]])
    } else {
        None
    }
}

fn at_cursor_exec<T: Resource>(l: &ResourceState<T>) -> (r: Option<&T::Summary>)
    ensures
        (match r { Some(x) => Some(*x), None => None }) == item_at_cursor(*l),
{
    if l.selected < l.items.len() { Some(&l.items[l.selected]) } else { None }
}

/// The last row of a list of `len` rows (0 when empty).
pub open spec fn last_of(len: nat) -> usize {
    if len > 0 { (len - 1) as usize } else { 0 }
}

/// The row after `sel`, but not past `last`.
pub open spec fn down_to(sel: usize, step: usize, last: usize) -> usize {
    if sel + step < last { (sel + step) as usize } else { last }
}

/// The row before `sel` by `step`, but not above the first.
pub open spec fn up_by(sel: usize, step: usize) -> usize {
    if sel >= step { (sel - step) as usize } else { 0 }
}

fn down_to_exec(sel: usize, step: usize, last: usize) -> (r: usize)
    ensures
        r == down_to(sel, step, last),
{
    if sel < last && step < last - sel { sel + step } else { last }
}

fn up_by_exec(sel: usize, step: usize) -> (r: usize)
    ensures
        r == up_by(sel, step),
{
    if sel >= step { sel - step } else { 0 }
}

/// What a key does while a list's column picker is open: Esc closes it,
/// Space and Enter toggle the column `chosen` under its cursor, the
/// navigation keys move its cursor.
pub open spec fn picker_key(km: KeyMap, code: KeyCode, mods: KeyModifiers, chosen: Seq<char>, r: Option<AppEvent>) -> bool {
    if code == KeyCode::Esc {
        r == Some(AppEvent::ToggleColumnPicker)
    } else if code == KeyCode::Char(' ') || code == KeyCode::Enter {
        r matches Some(AppEvent::ToggleColumn(n)) && n@ == chosen
    } else if any_matches(km.navigate_down@, code, mods) || code == KeyCode::Down {
        r matches Some(AppEvent::ToggleColumn(n)) && n@ == "next"@
    } else if any_matches(km.navigate_up@, code, mods) || code == KeyCode::Up {
        r matches Some(AppEvent::ToggleColumn(n)) && n@ == "prev"@
    } else {
        r is None
    }
}

fn picker_exec(km: &KeyMap, code: KeyCode, mods: KeyModifiers, chosen: &str) -> (r: Option<AppEvent>)
    ensures
        picker_key(*km, code, mods, chosen@, r),
{
    if code == KeyCode::Esc {
        Some(AppEvent::ToggleColumnPicker)
    } else if code == KeyCode::Char(' ') || code == KeyCode::Enter {
        Some(AppEvent::ToggleColumn(owned(chosen)))
    } else if km.is_navigate_down(code, mods) || code == KeyCode::Down {
        Some(AppEvent::ToggleColumn(owned("next")))
    } else if km.is_navigate_up(code, mods) || code == KeyCode::Up {
        Some(AppEvent::ToggleColumn(owned("prev")))
    } else {
        None
    }
}

/// The name of column `i` of the containers table, the last for any later
/// `i`.
pub open spec fn container_column(i: usize) -> Seq<char> {
    if i == 0 { "name"@ } else if i == 1 { "image"@ } else if i == 2 { "state"@ } else { "ports"@ }
}

fn container_column_exec(i: usize) -> (r: &'static str)
    ensures
        r@ == container_column(i),
{
    if i == 0 { "name" } else if i == 1 { "image" } else if i == 2 { "state" } else { "ports" }
}

/// The prompt for deleting one container.
pub open spec fn delete_container_prompt(name: Seq<char>) -> Seq<char> {
    "Delete container '"@ + name + "'?"@
}

/// The prompt for deleting the selected containers.
pub open spec fn delete_containers_prompt(n: nat) -> Seq<char> {
    "Delete "@ + decimal(n) + " selected container(s)?"@
}

/// Starting a stopped container or stopping a running one.
pub open spec fn start_or_stop(c: ContainerSummary) -> AppEvent {
    if c.state@ == "running"@ { AppEvent::StopContainer(c.id) } else { AppEvent::StartContainer(c.id) }
}

/// What a key does in the containers view (Ctrl+Y and Ctrl+O aside, see
/// [`container_key_result`]): the column picker and the filter input take
/// keys while open; otherwise keys move the cursor, open the details, logs,
/// shell form and explorer of the container under it, start, stop, restart
/// or delete it (or the selected ones), and manage the selection.
pub open spec fn container_key(s: AppState, code: KeyCode, mods: KeyModifiers, r: Option<AppEvent>) -> bool {
    let c = s.containers;
    let km = s.keymap;
    let x = s.container_extra;
    let cur = selected_item(c);
    let last = last_of(c.filtered@.len());
    if c.show_column_picker {
        picker_key(km, code, mods, container_column(if c.column_picker_selection < 3 { c.column_picker_selection } else { 3 }), r)
    } else if c.filter_active {
        exists|a: Option<FilterAction>| #[trigger] filter_action(code, mods, c.filter@, c.selected, c.filtered@.len() as usize, a) && match a {
            Some(FilterAction::Update(q)) => r == Some(AppEvent::FilterContainers(q)),
            Some(FilterAction::Clear) => r matches Some(AppEvent::FilterContainers(q)) && q@.len() == 0,
            Some(FilterAction::Submit(i)) => r == Some(AppEvent::FilterSubmit(i)),
            None => r is None,
        }
    } else if any_matches(km.navigate_down@, code, mods) {
        r == Some(AppEvent::SelectContainer(down_to(c.selected, 1, last)))
    } else if any_matches(km.navigate_up@, code, mods) {
        r == Some(AppEvent::SelectContainer(up_by(c.selected, 1)))
    } else if mods == control() && code == KeyCode::Char('u') {
        r == Some(AppEvent::SelectContainer(up_by(c.selected, 20)))
    } else if mods == control() && code == KeyCode::Char('d') {
        r == Some(AppEvent::SelectContainer(down_to(c.selected, 20, last)))
    } else if any_matches(km.jump_top@, code, mods) {
        r == Some(AppEvent::SelectContainer(0))
    } else if any_matches(km.jump_bottom@, code, mods) {
        r == Some(AppEvent::SelectContainer(last))
    } else if any_matches(km.open_details@, code, mods) {
        r == Some(AppEvent::ShowDetails)
    } else if any_matches(km.sort_direction@, code, mods) {
        r == Some(AppEvent::ToggleSortDirection)
    } else if code == KeyCode::Left || code == KeyCode::Right {
        r is None
    } else if any_matches(km.search@, code, mods) {
        r == Some(AppEvent::ActivateFilter)
    } else if any_matches(km.open_logs@, code, mods) {
        r == (match cur { Some(it) => Some(AppEvent::Navigate(Mode::Logs(it.id))), None => None })
    } else if any_matches(km.open_shell@, code, mods) {
        r == (match cur { Some(it) => Some(AppEvent::Navigate(Mode::ShellConfig(it.id))), None => None })
    } else if code == KeyCode::Char('x') && mods == no_mods() {
        r == (match cur { Some(it) => Some(AppEvent::Navigate(Mode::Explorer(it.id))), None => None })
    } else if any_matches(km.restart@, code, mods) {
        r == (match cur { Some(it) => Some(AppEvent::RestartContainer(it.id)), None => None })
    } else if any_matches(km.start_stop@, code, mods) {
        if x.selection_mode && x.selected_ids@.len() > 0 {
            r matches Some(AppEvent::BatchToggleContainers(ids)) && crate::config::texts(ids@) == x.selected_ids@
        } else {
            r == (match cur { Some(it) => Some(start_or_stop(it)), None => None })
        }
    } else if any_matches(km.delete@, code, mods) {
        if x.selection_mode && x.selected_ids@.len() > 0 {
            r matches Some(AppEvent::ShowConfirmDialog(p, a)) && a == ConfirmAction::BatchDeleteContainers
                && p@ == delete_containers_prompt(x.selected_ids@.len())
        } else {
            match cur {
                Some(it) => r matches Some(AppEvent::ShowConfirmDialog(p, a)) && a == ConfirmAction::DeleteContainer(it.id)
                    && p@ == delete_container_prompt(it.name@),
                None => r is None,
            }
        }
    } else if any_matches(km.toggle_selection@, code, mods) {
        if !x.selection_mode {
            r == Some(AppEvent::ToggleSelectionMode)
        } else {
            r == (match cur { Some(it) => Some(AppEvent::ToggleSelectContainer(it.id)), None => None })
        }
    } else if any_matches(km.select_all@, code, mods) {
        r == (if x.selection_mode { Some(AppEvent::SelectAllContainers) } else { None })
    } else if code == KeyCode::Char('S') && (mods == no_mods() || mods == shift()) {
        r == Some(AppEvent::CycleStatusFilter)
    } else if code == KeyCode::Esc {
        r == (if x.selection_mode { Some(AppEvent::ToggleSelectionMode) } else { None })
    } else {
        r is None
    }
}

fn container_act(state: &AppState, code: KeyCode, mods: KeyModifiers) -> (r: Option<AppEvent>)
    requires
        !state.containers.show_column_picker,
        !state.containers.filter_active,
        !(any_matches(state.keymap.navigate_down@, code, mods) || any_matches(state.keymap.navigate_up@, code, mods)
            || (mods == control() && (code == KeyCode::Char('u') || code == KeyCode::Char('d')))
            || any_matches(state.keymap.jump_top@, code, mods) || any_matches(state.keymap.jump_bottom@, code, mods)
            || any_matches(state.keymap.open_details@, code, mods) || any_matches(state.keymap.sort_direction@, code, mods)
            || code == KeyCode::Left || code == KeyCode::Right || any_matches(state.keymap.search@, code, mods)),
    ensures
        container_key(*state, code, mods, r),
{
    let km = &state.keymap;
    let cur = selected_exec(&state.containers);
    if km.is_open_logs(code, mods) {
        return match cur { Some(it) => Some(AppEvent::Navigate(Mode::Logs(it.id.clone()))), None => None };
    }
    if km.is_open_shell(code, mods) {
        return match cur { Some(it) => Some(AppEvent::Navigate(Mode::ShellConfig(it.id.clone()))), None => None };
    }
    if code == KeyCode::Char('x') && mods == KeyModifiers::none() {
        return match cur { Some(it) => Some(AppEvent::Navigate(Mode::Explorer(it.id.clone()))), None => None };
    }
    if km.is_restart(code, mods) {
        return match cur { Some(it) => Some(AppEvent::RestartContainer(it.id.clone())), None => None };
    }
    let x = &state.container_extra;
    if km.is_start_stop(code, mods) {
        if x.selection_mode && !x.selected_ids.is_empty() {
            return Some(AppEvent::BatchToggleContainers(x.selected_ids.to_vec()));
        }
        return match cur {
            Some(it) => Some(if str_eq(it.state.as_str(), "running") {
                AppEvent::StopContainer(it.id.clone())
            } else {
                AppEvent::StartContainer(it.id.clone())
            }),
            None => None,
        };
    }
    if km.is_delete(code, mods) {
        if x.selection_mode && !x.selected_ids.is_empty() {
            let mut p = owned("Delete ");
            push_decimal(&mut p, x.selected_ids.len() as u64);
            let p = concat(p.as_str(), " selected container(s)?");
            return Some(AppEvent::ShowConfirmDialog(p, ConfirmAction::BatchDeleteContainers));
        }
        return match cur {
            Some(it) => {
                let p = concat("Delete container '", it.name.as_str());
                let p = concat(p.as_str(), "'?");
                Some(AppEvent::ShowConfirmDialog(p, ConfirmAction::DeleteContainer(it.id.clone())))
            }
            None => None,
        };
    }
    if km.is_toggle_selection(code, mods) {
        if !x.selection_mode {
            return Some(AppEvent::ToggleSelectionMode);
        }
        return match cur { Some(it) => Some(AppEvent::ToggleSelectContainer(it.id.clone())), None => None };
    }
    if km.is_select_all(code, mods) {
        return if x.selection_mode { Some(AppEvent::SelectAllContainers) } else { None };
    }
    if code == KeyCode::Char('S') && (mods == KeyModifiers::none() || mods == KeyModifiers::shift()) {
        return Some(AppEvent::CycleStatusFilter);
    }
    if code == KeyCode::Esc {
        return if x.selection_mode { Some(AppEvent::ToggleSelectionMode) } else { None };
    }
    None
}

/// What a key does in the containers view (see [`container_key`]).
pub fn handle_container_key(key: KeyEvent, state: &AppState) -> (r: Option<AppEvent>)
    ensures
        container_key(*state, key.code, key.modifiers, r),
{
    let c = &state.containers;
    let km = &state.keymap;
    let code = key.code;
    let mods = key.modifiers;
    if c.show_column_picker {
        let i = if c.column_picker_selection < 3 { c.column_picker_selection } else { 3 };
        return picker_exec(km, code, mods, container_column_exec(i));
    }
    if c.filter_active {
        let a = handle_filter_input(key, c.filter.as_str(), c.selected, c.filtered.len());
        let ghost ga = a;
        let r = match a {
            Some(FilterAction::Update(q)) => Some(AppEvent::FilterContainers(q)),
            Some(FilterAction::Clear) => Some(AppEvent::FilterContainers(String::new())),
            Some(FilterAction::Submit(i)) => Some(AppEvent::FilterSubmit(i)),
            None => None,
        };
        assert(filter_action(code, mods, c.filter@, c.selected, c.filtered@.len() as usize, ga));
        return r;
    }
    let last = if c.filtered.len() > 0 { c.filtered.len() - 1 } else { 0 };
    if km.is_navigate_down(code, mods) {
        return Some(AppEvent::SelectContainer(down_to_exec(c.selected, 1, last)));
    }
    if km.is_navigate_up(code, mods) {
        return Some(AppEvent::SelectContainer(up_by_exec(c.selected, 1)));
    }
    if mods == KeyModifiers::control() && code == KeyCode::Char('u') {
        return Some(AppEvent::SelectContainer(up_by_exec(c.selected, 20)));
    }
    if mods == KeyModifiers::control() && code == KeyCode::Char('d') {
        return Some(AppEvent::SelectContainer(down_to_exec(c.selected, 20, last)));
    }
    if km.is_jump_top(code, mods) {
        return Some(AppEvent::SelectContainer(0));
    }
    if km.is_jump_bottom(code, mods) {
        return Some(AppEvent::SelectContainer(last));
    }
    if km.is_open_details(code, mods) {
        return Some(AppEvent::ShowDetails);
    }
    if km.is_sort_direction(code, mods) {
        return Some(AppEvent::ToggleSortDirection);
    }
    if code == KeyCode::Left || code == KeyCode::Right {
        return None;
    }
    if km.is_search(code, mods) {
        return Some(AppEvent::ActivateFilter);
    }
    container_act(state, code, mods)
}

} // verus!

verus! {

/// The name of column `i` of the images table, the last for any later `i`.
pub open spec fn image_column(i: usize) -> Seq<char> {
    if i == 0 { "repository"@ } else if i == 1 { "tag"@ } else if i == 2 { "id"@ } else { "size"@ }
}

fn image_column_exec(i: usize) -> (r: &'static str)
    ensures
        r@ == image_column(i),
{
    if i == 0 { "repository" } else if i == 1 { "tag" } else if i == 2 { "id" } else { "size" }
}

/// The prompt for removing one image.
pub open spec fn remove_image_prompt(repo: Seq<char>, tag: Seq<char>) -> Seq<char> {
    "Remove image '"@ + repo + ":"@ + tag + "'?"@
}

/// What a key does in the images view (Ctrl+Y and Ctrl+O aside): the
/// column picker and the filter input take keys while open; otherwise keys
/// move the cursor, run or remove the image under it, remove dangling or
/// unused images, and open the filter.
pub open spec fn image_key(s: AppState, code: KeyCode, mods: KeyModifiers, r: Option<AppEvent>) -> bool {
    let l = s.images;
    let km = s.keymap;
    let cur = selected_item(l);
    let last = last_of(l.filtered@.len());
    if l.show_column_picker {
        picker_key(km, code, mods, image_column(if l.column_picker_selection < 3 { l.column_picker_selection } else { 3 }), r)
    } else if l.filter_active {
        exists|a: Option<FilterAction>| #[trigger] filter_action(code, mods, l.filter@, l.selected, l.filtered@.len() as usize, a) && match a {
            Some(FilterAction::Update(q)) => r == Some(AppEvent::FilterImages(q)),
            Some(FilterAction::Clear) => r matches Some(AppEvent::FilterImages(q)) && q@.len() == 0,
            Some(FilterAction::Submit(i)) => r == Some(AppEvent::FilterSubmit(i)),
            None => r is None,
        }
    } else if any_matches(km.navigate_images@, code, mods) || code == KeyCode::Down {
        r == Some(AppEvent::SelectImage(down_to(l.selected, 1, last)))
    } else if any_matches(km.navigate_up@, code, mods) || code == KeyCode::Up {
        r == Some(AppEvent::SelectImage(up_by(l.selected, 1)))
    } else if any_matches(km.run_image@, code, mods) {
        r == (match cur { Some(it) => Some(AppEvent::RunImage(it.repository, it.tag)), None => None })
    } else if any_matches(km.remove_image@, code, mods) {
        match cur {
            Some(it) => r matches Some(AppEvent::ShowConfirmDialog(p, a)) && a == ConfirmAction::RemoveImage(it.id)
                && p@ == remove_image_prompt(it.repository@, it.tag@),
            None => r is None,
        }
    } else if any_matches(km.remove_dangling_images@, code, mods) {
        r matches Some(AppEvent::ShowConfirmDialog(p, a)) && a == ConfirmAction::RemoveDanglingImages
            && p@ == "Remove all dangling (<none>) images?"@
    } else if any_matches(km.prune_images@, code, mods) {
        r matches Some(AppEvent::ShowConfirmDialog(p, a)) && a == ConfirmAction::PruneUnusedImages
            && p@ == "Prune all unused images?"@
    } else if any_matches(km.search@, code, mods) {
        r == Some(AppEvent::ActivateImageFilter)
    } else if code == KeyCode::Enter {
        r == (match cur { Some(it) => Some(AppEvent::RunImage(it.repository, it.tag)), None => None })
    } else {
        r is None
    }
}

/// What a key does in the images view (see [`image_key`]).
pub fn handle_image_key(key: KeyEvent, state: &AppState) -> (r: Option<AppEvent>)
    ensures
        image_key(*state, key.code, key.modifiers, r),
{
    let l = &state.images;
    let km = &state.keymap;
    let code = key.code;
    let mods = key.modifiers;
    if l.show_column_picker {
        let i = if l.column_picker_selection < 3 { l.column_picker_selection } else { 3 };
        return picker_exec(km, code, mods, image_column_exec(i));
    }
    if l.filter_active {
        let a = handle_filter_input(key, l.filter.as_str(), l.selected, l.filtered.len());
        let ghost ga = a;
        let r = match a {
            Some(FilterAction::Update(q)) => Some(AppEvent::FilterImages(q)),
            Some(FilterAction::Clear) => Some(AppEvent::FilterImages(String::new())),
            Some(FilterAction::Submit(i)) => Some(AppEvent::FilterSubmit(i)),
            None => None,
        };
        assert(filter_action(code, mods, l.filter@, l.selected, l.filtered@.len() as usize, ga));
        return r;
    }
    let last = if l.filtered.len() > 0 { l.filtered.len() - 1 } else { 0 };
    let cur = selected_exec(l);
    if km.is_navigate_images(code, mods) || code == KeyCode::Down {
        return Some(AppEvent::SelectImage(down_to_exec(l.selected, 1, last)));
    }
    if km.is_navigate_up(code, mods) || code == KeyCode::Up {
        return Some(AppEvent::SelectImage(up_by_exec(l.selected, 1)));
    }
    if km.is_run_image(code, mods) {
        return match cur { Some(it) => Some(AppEvent::RunImage(it.repository.clone(), it.tag.clone())), None => None };
    }
    if km.is_remove_image(code, mods) {
        return match cur {
            Some(it) => {
                let p = concat("Remove image '", it.repository.as_str());
                let p = concat(p.as_str(), ":");
                let p = concat(p.as_str(), it.tag.as_str());
                let p = concat(p.as_str(), "'?");
                Some(AppEvent::ShowConfirmDialog(p, ConfirmAction::RemoveImage(it.id.clone())))
            }
            None => None,
        };
    }
    if km.is_remove_dangling_images(code, mods) {
        return Some(AppEvent::ShowConfirmDialog(owned("Remove all dangling (<none>) images?"), ConfirmAction::RemoveDanglingImages));
    }
    if km.is_prune_images(code, mods) {
        return Some(AppEvent::ShowConfirmDialog(owned("Prune all unused images?"), ConfirmAction::PruneUnusedImages));
    }
    if km.is_search(code, mods) {
        return Some(AppEvent::ActivateImageFilter);
    }
    if code == KeyCode::Enter {
        return match cur { Some(it) => Some(AppEvent::RunImage(it.repository.clone(), it.tag.clone())), None => None };
    }
    None
}

/// The name of column `i` of the networks table, the last for any later
/// `i`.
pub open spec fn network_column(i: usize) -> Seq<char> {
    if i == 0 { "name"@ } else if i == 1 { "id"@ } else if i == 2 { "driver"@ } else if i == 3 { "scope"@ } else { "ipam"@ }
}

fn network_column_exec(i: usize) -> (r: &'static str)
    ensures
        r@ == network_column(i),
{
    if i == 0 { "name" } else if i == 1 { "id" } else if i == 2 { "driver" } else if i == 3 { "scope" } else { "ipam" }
}

/// The prompt for removing a network.
pub open spec fn remove_network_prompt(name: Seq<char>) -> Seq<char> {
    "Remove network '"@ + name + "'?"@
}

/// What a key does in the networks view (Ctrl+Y and Ctrl+O aside): the
/// column picker takes keys while open; otherwise Esc goes back and keys
/// move the cursor or remove the network at it.
pub open spec fn network_key(s: AppState, code: KeyCode, mods: KeyModifiers, r: Option<AppEvent>) -> bool {
    let l = s.networks;
    let km = s.keymap;
    let last = last_of(l.items@.len());
    if l.show_column_picker {
        picker_key(km, code, mods, network_column(if l.column_picker_selection < 4 { l.column_picker_selection } else { 4 }), r)
    } else if code == KeyCode::Esc {
        r == Some(AppEvent::Back)
    } else if any_matches(km.navigate_down@, code, mods) || code == KeyCode::Down {
        r == Some(AppEvent::SelectNetwork(down_to(l.selected, 1, last)))
    } else if any_matches(km.navigate_up@, code, mods) || code == KeyCode::Up {
        r == Some(AppEvent::SelectNetwork(up_by(l.selected, 1)))
    } else if any_matches(km.sort_direction@, code, mods) {
        r == Some(AppEvent::ToggleSortDirection)
    } else if code == KeyCode::Left || code == KeyCode::Right {
        r is None
    } else if any_matches(km.delete@, code, mods) {
        match item_at_cursor(l) {
            Some(n) => r matches Some(AppEvent::ShowConfirmDialog(p, a)) && a == ConfirmAction::RemoveNetwork(n.id)
                && p@ == remove_network_prompt(n.name@),
            None => r is None,
        }
    } else {
        r is None
    }
}

/// What a key does in the networks view (see [`network_key`]).
pub fn handle_network_key(key: KeyEvent, state: &AppState) -> (r: Option<AppEvent>)
    ensures
        network_key(*state, key.code, key.modifiers, r),
{
    let l = &state.networks;
    let km = &state.keymap;
    let code = key.code;
    let mods = key.modifiers;
    if l.show_column_picker {
        let i = if l.column_picker_selection < 4 { l.column_picker_selection } else { 4 };
        return picker_exec(km, code, mods, network_column_exec(i));
    }
    let last = if l.items.len() > 0 { l.items.len() - 1 } else { 0 };
    if code == KeyCode::Esc {
        return Some(AppEvent::Back);
    }
    if km.is_navigate_down(code, mods) || code == KeyCode::Down {
        return Some(AppEvent::SelectNetwork(down_to_exec(l.selected, 1, last)));
    }
    if km.is_navigate_up(code, mods) || code == KeyCode::Up {
        return Some(AppEvent::SelectNetwork(up_by_exec(l.selected, 1)));
    }
    if km.is_sort_direction(code, mods) {
        return Some(AppEvent::ToggleSortDirection);
    }
    if code == KeyCode::Left || code == KeyCode::Right {
        return None;
    }
    if km.is_delete(code, mods) {
        return match at_cursor_exec(l) {
            Some(n) => {
                let p = concat("Remove network '", n.name.as_str());
                let p = concat(p.as_str(), "'?");
                Some(AppEvent::ShowConfirmDialog(p, ConfirmAction::RemoveNetwork(n.id.clone())))
            }
            None => None,
        };
    }
    None
}

/// The name of column `i` of the volumes table, the last for any later
/// `i`.
pub open spec fn volume_column(i: usize) -> Seq<char> {
    if i == 0 { "name"@ } else if i == 1 { "driver"@ } else if i == 2 { "size"@ } else { "mountpoint"@ }
}

fn volume_column_exec(i: usize) -> (r: &'static str)
    ensures
        r@ == volume_column(i),
{
    if i == 0 { "name" } else if i == 1 { "driver" } else if i == 2 { "size" } else { "mountpoint" }
}

/// The prompt for removing one volume.
pub open spec fn remove_volume_prompt(name: Seq<char>) -> Seq<char> {
    "Remove volume '"@ + name + "'?"@
}

/// The prompt for removing the selected volumes.
pub open spec fn remove_volumes_prompt(n: nat) -> Seq<char> {
    "Remove "@ + decimal(n) + " selected volume(s)?"@
}

/// What a key does in the volumes view (Ctrl+Y and Ctrl+O aside): the
/// column picker takes keys while open; otherwise Esc leaves the selection
/// mode or goes back, and keys move the cursor, manage the selection,
/// remove the volume under the cursor (or the selected ones) and open the
/// explorer on it.
pub open spec fn volume_key(s: AppState, code: KeyCode, mods: KeyModifiers, r: Option<AppEvent>) -> bool {
    let l = s.volumes;
    let km = s.keymap;
    let cur = selected_item(l);
    let last = last_of(l.items@.len());
    if l.show_column_picker {
        picker_key(km, code, mods, volume_column(if l.column_picker_selection < 3 { l.column_picker_selection } else { 3 }), r)
    } else if code == KeyCode::Esc {
        r == Some(if l.selection_mode { AppEvent::ToggleSelectionMode } else { AppEvent::Back })
    } else if any_matches(km.navigate_down@, code, mods) || code == KeyCode::Down {
        r == Some(AppEvent::SelectVolume(down_to(l.selected, 1, last)))
    } else if any_matches(km.navigate_up@, code, mods) || code == KeyCode::Up {
        r == Some(AppEvent::SelectVolume(up_by(l.selected, 1)))
    } else if any_matches(km.sort_direction@, code, mods) {
        r == Some(AppEvent::ToggleSortDirection)
    } else if code == KeyCode::Left || code == KeyCode::Right {
        r is None
    } else if any_matches(km.toggle_selection@, code, mods) {
        if !l.selection_mode {
            r == Some(AppEvent::ToggleSelectionMode)
        } else {
            r == (match cur { Some(v) => Some(AppEvent::ToggleSelectResource(v.name)), None => None })
        }
    } else if any_matches(km.select_all@, code, mods) {
        r == (if l.selection_mode { Some(AppEvent::SelectAllResources) } else { None })
    } else if any_matches(km.delete@, code, mods) {
        if l.selection_mode && l.selected_ids@.len() > 0 {
            r matches Some(AppEvent::ShowConfirmDialog(p, a)) && a == ConfirmAction::BatchDeleteVolumes
                && p@ == remove_volumes_prompt(l.selected_ids@.len())
        } else {
            match cur {
                Some(v) => r matches Some(AppEvent::ShowConfirmDialog(p, a)) && a == ConfirmAction::RemoveVolume(v.name)
                    && p@ == remove_volume_prompt(v.name@),
                None => r is None,
            }
        }
    } else if code == KeyCode::Char('x') && mods == no_mods() {
        r == (match cur { Some(v) => Some(AppEvent::Navigate(Mode::ExplorerVolume(v.mountpoint, v.name))), None => None })
    } else {
        r is None
    }
}

/// What a key does in the volumes view (see [`volume_key`]).
pub fn handle_volume_key(key: KeyEvent, state: &AppState) -> (r: Option<AppEvent>)
    ensures
        volume_key(*state, key.code, key.modifiers, r),
{
    let l = &state.volumes;
    let km = &state.keymap;
    let code = key.code;
    let mods = key.modifiers;
    if l.show_column_picker {
        let i = if l.column_picker_selection < 3 { l.column_picker_selection } else { 3 };
        return picker_exec(km, code, mods, volume_column_exec(i));
    }
    let last = if l.items.len() > 0 { l.items.len() - 1 } else { 0 };
    let cur = selected_exec(l);
    if code == KeyCode::Esc {
        return Some(if l.selection_mode { AppEvent::ToggleSelectionMode } else { AppEvent::Back });
    }
    if km.is_navigate_down(code, mods) || code == KeyCode::Down {
        return Some(AppEvent::SelectVolume(down_to_exec(l.selected, 1, last)));
    }
    if km.is_navigate_up(code, mods) || code == KeyCode::Up {
        return Some(AppEvent::SelectVolume(up_by_exec(l.selected, 1)));
    }
    if km.is_sort_direction(code, mods) {
        return Some(AppEvent::ToggleSortDirection);
    }
    if code == KeyCode::Left || code == KeyCode::Right {
        return None;
    }
    if km.is_toggle_selection(code, mods) {
        if !l.selection_mode {
            return Some(AppEvent::ToggleSelectionMode);
        }
        return match cur { Some(v) => Some(AppEvent::ToggleSelectResource(v.name.clone())), None => None };
    }
    if km.is_select_all(code, mods) {
        return if l.selection_mode { Some(AppEvent::SelectAllResources) } else { None };
    }
    if km.is_delete(code, mods) {
        if l.selection_mode && !l.selected_ids.is_empty() {
            let mut p = owned("Remove ");
            push_decimal(&mut p, l.selected_ids.len() as u64);
            let p = concat(p.as_str(), " selected volume(s)?");
            return Some(AppEvent::ShowConfirmDialog(p, ConfirmAction::BatchDeleteVolumes));
        }
        return match cur {
            Some(v) => {
                let p = concat("Remove volume '", v.name.as_str());
                let p = concat(p.as_str(), "'?");
                Some(AppEvent::ShowConfirmDialog(p, ConfirmAction::RemoveVolume(v.name.clone())))
            }
            None => None,
        };
    }
    if code == KeyCode::Char('x') && mods == KeyModifiers::none() {
        return match cur { Some(v) => Some(AppEvent::Navigate(Mode::ExplorerVolume(v.mountpoint.clone(), v.name.clone()))), None => None };
    }
    None
}

/// The message shown once an id is on the clipboard.
pub open spec fn copied_msg() -> Seq<char> {
    "Copied to clipboard"@
}

/// What a key does in a list view, clipboard and column picker included:
/// Ctrl+Y copies the id (for volumes the name) of the item at the cursor,
/// Ctrl+O opens or closes the column picker, other keys go to the view.
pub open spec fn list_key_result(s: AppState, code: KeyCode, mods: KeyModifiers, r: Option<KeyResult>) -> bool {
    let ctrl_y = mods == control() && code == KeyCode::Char('y');
    let ctrl_o = mods == control() && code == KeyCode::Char('o');
    let copy: Option<(Seq<char>, Seq<char>)> = match crate::reducers::navigation::stack(s).last() {
        Mode::Containers => match selected_item(s.containers) { Some(c) => Some((c.id@, copied_msg())), None => None },
        Mode::Images => if s.images.filter_active { None } else {
            match selected_item(s.images) { Some(i) => Some((i.id@, "Image ID copied to clipboard"@)), None => None }
        },
        Mode::Networks => match item_at_cursor(s.networks) { Some(n) => Some((n.id@, copied_msg())), None => None },
        _ => match item_at_cursor(s.volumes) { Some(v) => Some((v.name@, copied_msg())), None => None },
    };
    let skip_picker = crate::reducers::navigation::stack(s).last() is Images && s.images.filter_active && ctrl_y;
    if ctrl_y && copy is Some {
        r matches Some(KeyResult::Copy { value, copied }) && value@ == copy.unwrap().0 && copied@ == copy.unwrap().1
    } else if ctrl_o && !skip_picker {
        r matches Some(KeyResult::Event(e)) && e == AppEvent::ToggleColumnPicker
    } else {
        exists|e: Option<AppEvent>| #![trigger view_key(s, code, mods, e)] view_key(s, code, mods, e) && r == (match e { Some(e) => Some(KeyResult::Event(e)), None => None })
    }
}

/// What a key does in the list view on top (Ctrl+Y and Ctrl+O aside).
pub open spec fn view_key(s: AppState, code: KeyCode, mods: KeyModifiers, e: Option<AppEvent>) -> bool {
    match crate::reducers::navigation::stack(s).last() {
        Mode::Containers => container_key(s, code, mods, e),
        Mode::Images => image_key(s, code, mods, e),
        Mode::Networks => network_key(s, code, mods, e),
        _ => volume_key(s, code, mods, e),
    }
}

fn as_result(e: Option<AppEvent>) -> (r: Option<KeyResult>)
    ensures
        r == (match e { Some(e) => Some(KeyResult::Event(e)), None => None }),
{
    match e {
        Some(e) => Some(KeyResult::Event(e)),
        None => None,
    }
}

/// What a key does in the list view on top, which must be the containers,
/// images, networks or volumes view (see [`list_key_result`]).
pub fn handle_key_with_clipboard(key: KeyEvent, state: &AppState) -> (r: Option<KeyResult>)
    requires
        ({
            let m = crate::reducers::navigation::stack(*state).last();
            m is Containers || m is Images || m is Networks || m is Volumes
        }),
    ensures
        list_key_result(*state, key.code, key.modifiers, r),
{
    let code = key.code;
    let mods = key.modifiers;
    let ctrl_y = mods == KeyModifiers::control() && code == KeyCode::Char('y');
    let ctrl_o = mods == KeyModifiers::control() && code == KeyCode::Char('o');
    match state.navigation.mode_stack.current() {
        Mode::Containers => {
            if ctrl_y {
                if let Some(c) = selected_exec(&state.containers) {
                    return Some(KeyResult::Copy { value: c.id.clone(), copied: owned("Copied to clipboard") });
                }
            }
            if ctrl_o {
                return Some(KeyResult::Event(AppEvent::ToggleColumnPicker));
            }
            let e = handle_container_key(key, state);
            proof { assert(view_key(*state, code, mods, e)); }
            as_result(e)
        }
        Mode::Images => {
            if ctrl_y {
                if state.images.filter_active {
                    let e = handle_image_key(key, state);
                    proof { assert(view_key(*state, code, mods, e)); }
                    return as_result(e);
                }
                if let Some(i) = selected_exec(&state.images) {
                    return Some(KeyResult::Copy { value: i.id.clone(), copied: owned("Image ID copied to clipboard") });
                }
            }
            if ctrl_o {
                return Some(KeyResult::Event(AppEvent::ToggleColumnPicker));
            }
            let e = handle_image_key(key, state);
            proof { assert(view_key(*state, code, mods, e)); }
            as_result(e)
        }
        Mode::Networks => {
            if ctrl_y {
                if let Some(n) = at_cursor_exec(&state.networks) {
                    return Some(KeyResult::Copy { value: n.id.clone(), copied: owned("Copied to clipboard") });
                }
            }
            if ctrl_o {
                return Some(KeyResult::Event(AppEvent::ToggleColumnPicker));
            }
            let e = handle_network_key(key, state);
            proof { assert(view_key(*state, code, mods, e)); }
            as_result(e)
        }
        _ => {
            if ctrl_y {
                if let Some(v) = at_cursor_exec(&state.volumes) {
                    return Some(KeyResult::Copy { value: v.name.clone(), copied: owned("Copied to clipboard") });
                }
            }
            if ctrl_o {
                return Some(KeyResult::Event(AppEvent::ToggleColumnPicker));
            }
            let e = handle_volume_key(key, state);
            proof { assert(view_key(*state, code, mods, e)); }
            as_result(e)
        }
    }
}

} // verus!
