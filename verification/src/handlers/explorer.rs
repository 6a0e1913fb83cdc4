//! Keys in the file explorer.

use vstd::prelude::*;
use crate::event::{AppEvent, ConfirmAction};
use crate::handlers::{edit_text, edited, KeyEvent};
use crate::keymap::{any_matches, control, no_mods, shift, KeyCode, KeyMap, KeyModifiers};
use crate::paths::{join_plain, join_plain_exec, root};
use crate::state::{AppState, ExplorerEntry, ExplorerFocus, ExplorerPanel};
use crate::text::{concat, owned, str_eq};

verus! {

/// The last row the cursor can reach in a panel of `count` entries: the
/// ".." row comes first when the panel is not at the root.
pub open spec fn max_row(count: nat, show_parent: bool) -> nat {
    if show_parent { count } else if count > 0 { (count - 1) as nat } else { 0 }
}

fn max_selected(item_count: usize, show_parent: bool) -> (r: usize)
    ensures
        r == max_row(item_count as nat, show_parent),
{
    if show_parent { item_count } else if item_count > 0 { item_count - 1 } else { 0 }
}

/// Whether the host panel (on the left) has the focus.
pub open spec fn host_focused(s: AppState) -> bool {
    s.explorer.focus == ExplorerFocus::Left
}

/// The panel that has the focus.
pub open spec fn focused_panel(s: AppState) -> ExplorerPanel {
    if host_focused(s) { s.explorer.host } else { s.explorer.container }
}

/// Whether a panel shows the ".." row: it does everywhere but at the root.
pub open spec fn shows_parent(p: ExplorerPanel) -> bool {
    p.path@ != root()
}

/// The entry under the cursor of a panel, if the cursor is on one (and not
/// on the ".." row).
pub open spec fn entry_under_cursor(p: ExplorerPanel) -> Option<ExplorerEntry> {
    let idx: int = if shows_parent(p) { if p.selected > 0 { p.selected - 1 } else { 0 } } else { p.selected as int };
    if idx < p.items@.len() { Some(p.items@[idx]) } else { None }
}

/// The event that puts the cursor of the focused panel on row `n`.
pub open spec fn select_row(host: bool, n: int) -> Option<AppEvent> {
    Some(if host { AppEvent::ExplorerHostSelect(n as usize) } else { AppEvent::ExplorerContainerSelect(n as usize) })
}

/// `a` or `b`, whichever is smaller.
pub open spec fn min_of(a: int, b: int) -> int {
    if a < b { a } else { b }
}

/// What a key does in an explorer text input holding `t`: Esc and Enter
/// give `esc` and `enter`, a key that erases or types gives the event that
/// `update` makes of the new text (see [`edited`]), other keys nothing.
pub open spec fn input_key(code: KeyCode, mods: KeyModifiers, t: Seq<char>, esc: AppEvent, enter: AppEvent, update: spec_fn(AppEvent, Seq<char>) -> bool, r: Option<AppEvent>) -> bool {
    if code == KeyCode::Esc {
        r == Some(esc)
    } else if code == KeyCode::Enter {
        r == Some(enter)
    } else {
        match edited(code, mods, t) {
            Some(q) => r matches Some(e) && update(e, q),
            None => r is None,
        }
    }
}

/// What a key does in the explorer's filter input.
pub open spec fn filter_input_key(s: AppState, code: KeyCode, mods: KeyModifiers, r: Option<AppEvent>) -> bool {
    let t = if s.explorer.host.filter_active { s.explorer.host.filter@ } else { s.explorer.container.filter@ };
    if code == KeyCode::Esc {
        r matches Some(AppEvent::ExplorerFilter(q)) && q@.len() == 0
    } else {
        input_key(code, mods, t, AppEvent::ExplorerFilterSubmit, AppEvent::ExplorerFilterSubmit,
            |e: AppEvent, q: Seq<char>| e matches AppEvent::ExplorerFilter(x) && x@ == q, r)
    }
}

/// What a key does in the explorer's rename input.
pub open spec fn rename_input_key(s: AppState, code: KeyCode, mods: KeyModifiers, r: Option<AppEvent>) -> bool {
    let t = if s.explorer.host.rename_active { s.explorer.host.rename_buffer@ } else { s.explorer.container.rename_buffer@ };
    input_key(code, mods, t, AppEvent::ExplorerRenameCancel, AppEvent::ExplorerRenameSubmit,
        |e: AppEvent, q: Seq<char>| e matches AppEvent::ExplorerRenameUpdate(x) && x@ == q, r)
}

/// What a key does in the explorer's go-to-path input.
pub open spec fn goto_input_key(s: AppState, code: KeyCode, mods: KeyModifiers, r: Option<AppEvent>) -> bool {
    let t = if s.explorer.host.goto_active { s.explorer.host.goto_buffer@ } else { s.explorer.container.goto_buffer@ };
    input_key(code, mods, t, AppEvent::ExplorerGotoCancel, AppEvent::ExplorerGotoSubmit,
        |e: AppEvent, q: Seq<char>| e matches AppEvent::ExplorerGotoUpdate(x) && x@ == q, r)
}

fn handle_filter_input(key: KeyEvent, state: &AppState) -> (r: Option<AppEvent>)
    ensures
        filter_input_key(*state, key.code, key.modifiers, r),
{
    let current = if state.explorer.host.filter_active { &state.explorer.host.filter } else { &state.explorer.container.filter };
    if key.code == KeyCode::Esc {
        return Some(AppEvent::ExplorerFilter(String::new()));
    }
    if key.code == KeyCode::Enter {
        return Some(AppEvent::ExplorerFilterSubmit);
    }
    match edit_text(key.code, key.modifiers, current) {
        Some(q) => Some(AppEvent::ExplorerFilter(q)),
        None => None,
    }
}

fn handle_rename_input(key: KeyEvent, state: &AppState) -> (r: Option<AppEvent>)
    ensures
        rename_input_key(*state, key.code, key.modifiers, r),
{
    let current = if state.explorer.host.rename_active { &state.explorer.host.rename_buffer } else { &state.explorer.container.rename_buffer };
    if key.code == KeyCode::Esc {
        return Some(AppEvent::ExplorerRenameCancel);
    }
    if key.code == KeyCode::Enter {
        return Some(AppEvent::ExplorerRenameSubmit);
    }
    match edit_text(key.code, key.modifiers, current) {
        Some(q) => Some(AppEvent::ExplorerRenameUpdate(q)),
        None => None,
    }
}

fn handle_goto_input(key: KeyEvent, state: &AppState) -> (r: Option<AppEvent>)
    ensures
        goto_input_key(*state, key.code, key.modifiers, r),
{
    let current = if state.explorer.host.goto_active { &state.explorer.host.goto_buffer } else { &state.explorer.container.goto_buffer };
    if key.code == KeyCode::Esc {
        return Some(AppEvent::ExplorerGotoCancel);
    }
    if key.code == KeyCode::Enter {
        return Some(AppEvent::ExplorerGotoSubmit);
    }
    match edit_text(key.code, key.modifiers, current) {
        Some(q) => Some(AppEvent::ExplorerGotoUpdate(q)),
        None => None,
    }
}

/// The message of the dialog that asks before `path` is deleted.
pub open spec fn delete_question(path: Seq<char>) -> Seq<char> {
    "Delete '"@ + path + "'?"@
}

/// What a key does in the file explorer when no text input is open, the
/// focused panel holding `p`.
pub open spec fn panel_key(s: AppState, code: KeyCode, mods: KeyModifiers, r: Option<AppEvent>) -> bool {
    let km = s.keymap;
    let host = host_focused(s);
    let p = focused_panel(s);
    let sel = p.selected as int;
    let max = max_row(p.items@.len(), shows_parent(p)) as int;
    let on_parent = shows_parent(p) && p.selected == 0;
    if (code == KeyCode::Tab && mods == no_mods()) || code == KeyCode::BackTab || (code == KeyCode::Tab && mods == shift()) {
        r == Some(AppEvent::ExplorerSelect)
    } else if code == KeyCode::Backspace {
        r == Some(AppEvent::ExplorerHostGoUp)
    } else if any_matches(km.navigate_down@, code, mods) || code == KeyCode::Down {
        r == select_row(host, min_of(sel + 1, max))
    } else if any_matches(km.navigate_up@, code, mods) || code == KeyCode::Up {
        r == select_row(host, if sel > 0 { sel - 1 } else { 0 })
    } else if code == KeyCode::PageDown {
        r == select_row(host, min_of(sel + 20, max))
    } else if code == KeyCode::PageUp {
        r == select_row(host, if sel > 20 { sel - 20 } else { 0 })
    } else if code == KeyCode::Char('g') && mods == no_mods() {
        r == select_row(host, 0)
    } else if code == KeyCode::Char('G') {
        r == select_row(host, max)
    } else if code == KeyCode::Enter {
        if on_parent {
            r == Some(if host { AppEvent::ExplorerHostGoUp } else { AppEvent::ExplorerContainerGoUp })
        } else {
            match entry_under_cursor(p) {
                Some(e) => if e.is_dir {
                    if host {
                        r matches Some(AppEvent::ExplorerHostEnterDir(n)) && n@ == e.name@
                    } else {
                        r matches Some(AppEvent::ExplorerContainerEnterDir(n)) && n@ == e.name@
                    }
                } else {
                    r is None
                },
                None => r is None,
            }
        }
    } else if code == KeyCode::Char('r') && mods == no_mods() {
        if !on_parent && entry_under_cursor(p) is Some {
            r == Some(if host { AppEvent::ExplorerHostActivateRename } else { AppEvent::ExplorerContainerActivateRename })
        } else {
            r is None
        }
    } else if code == KeyCode::Char('R') {
        r == Some(if host { AppEvent::ExplorerHostRefresh } else { AppEvent::ExplorerContainerRefresh })
    } else if code == KeyCode::Char('/') && mods == no_mods() {
        r == Some(if host { AppEvent::ExplorerHostActivateFilter } else { AppEvent::ExplorerContainerActivateFilter })
    } else if code == KeyCode::Char('c') && mods == control() {
        r == Some(if host { AppEvent::ExplorerCopyToContainer } else { AppEvent::ExplorerCopyFromContainer })
    } else if code == KeyCode::Char('p') && mods == control() {
        r == Some(if host { AppEvent::ExplorerHostActivateGoto } else { AppEvent::ExplorerContainerActivateGoto })
    } else if code == KeyCode::Char('d') && mods == no_mods() {
        if on_parent {
            r is None
        } else {
            match entry_under_cursor(p) {
                Some(e) => {
                    let full = join_plain(p.path@, e.name@);
                    if host {
                        r matches Some(AppEvent::ShowConfirmDialog(m, ConfirmAction::DeleteHostFile(f)))
                            && m@ == delete_question(full) && f@ == full
                    } else {
                        r matches Some(AppEvent::ShowConfirmDialog(m, ConfirmAction::DeleteContainerFile(c, f)))
                            && m@ == delete_question(full) && c@ == s.explorer.container_id@ && f@ == full
                    }
                },
                None => r is None,
            }
        }
    } else if code == KeyCode::Esc {
        r == Some(AppEvent::Back)
    } else {
        r is None
    }
}

/// What a key does in the file explorer: an open filter, rename or go-to
/// input takes the key first (in that order), else [`panel_key`].
pub open spec fn explorer_key(s: AppState, code: KeyCode, mods: KeyModifiers, r: Option<AppEvent>) -> bool {
    let h = s.explorer.host;
    let c = s.explorer.container;
    if h.filter_active || c.filter_active {
        filter_input_key(s, code, mods, r)
    } else if h.rename_active || c.rename_active {
        rename_input_key(s, code, mods, r)
    } else if h.goto_active || c.goto_active {
        goto_input_key(s, code, mods, r)
    } else {
        panel_key(s, code, mods, r)
    }
}

fn select_event(host: bool, n: usize) -> (r: AppEvent)
    ensures
        Some(r) == select_row(host, n as int),
{
    if host { AppEvent::ExplorerHostSelect(n) } else { AppEvent::ExplorerContainerSelect(n) }
}

fn entry_exec(p: &ExplorerPanel, show_parent: bool) -> (r: Option<&ExplorerEntry>)
    requires
        show_parent == shows_parent(*p),
    ensures
        (match r { Some(e) => Some(*e), None => None }) == entry_under_cursor(*p),
{
    let idx = if show_parent { if p.selected > 0 { p.selected - 1 } else { 0 } } else { p.selected };
    if idx < p.items.len() { Some(&p.items[idx]) } else { None }
}

fn delete_dialog(state: &AppState, host: bool, path: &str, name: &str) -> (r: AppEvent)
    ensures
        ({
            let full = join_plain(path@, name@);
            if host {
                r matches AppEvent::ShowConfirmDialog(m, ConfirmAction::DeleteHostFile(f))
                    && m@ == delete_question(full) && f@ == full
            } else {
                r matches AppEvent::ShowConfirmDialog(m, ConfirmAction::DeleteContainerFile(c, f))
                    && m@ == delete_question(full) && c@ == state.explorer.container_id@ && f@ == full
            }
        }),
{
    let full = join_plain_exec(path, name);
    let head = concat("Delete '", full.as_str());
    let msg = concat(head.as_str(), "'?");
    if host {
        AppEvent::ShowConfirmDialog(msg, ConfirmAction::DeleteHostFile(full))
    } else {
        AppEvent::ShowConfirmDialog(msg, ConfirmAction::DeleteContainerFile(state.explorer.container_id.clone(), full))
    }
}

fn key_matches_nav_down(key: KeyEvent, km: &KeyMap) -> (r: bool)
    ensures
        r == (any_matches(km.navigate_down@, key.code, key.modifiers) || key.code == KeyCode::Down),
{
    km.is_navigate_down(key.code, key.modifiers) || key.code == KeyCode::Down
}

fn key_matches_nav_up(key: KeyEvent, km: &KeyMap) -> (r: bool)
    ensures
        r == (any_matches(km.navigate_up@, key.code, key.modifiers) || key.code == KeyCode::Up),
{
    km.is_navigate_up(key.code, key.modifiers) || key.code == KeyCode::Up
}

fn handle_panel_key(key: KeyEvent, state: &AppState) -> (r: Option<AppEvent>)
    ensures
        panel_key(*state, key.code, key.modifiers, r),
{
    let code = key.code;
    let mods = key.modifiers;
    if (code == KeyCode::Tab && mods == KeyModifiers::none()) || code == KeyCode::BackTab
        || (code == KeyCode::Tab && mods == KeyModifiers::shift()) {
        return Some(AppEvent::ExplorerSelect);
    }
    if code == KeyCode::Backspace {
        return Some(AppEvent::ExplorerHostGoUp);
    }
    let host = state.explorer.focus == ExplorerFocus::Left;
    let p = if host { &state.explorer.host } else { &state.explorer.container };
    let selected = p.selected;
    let show_parent = !str_eq(p.path.as_str(), "/");
    proof {
        reveal_strlit("/");
        assert("/"@ =~= root());
    }
    let max = max_selected(p.items.len(), show_parent);
    let on_parent = show_parent && selected == 0;
    if key_matches_nav_down(key, &state.keymap) {
        let next = if selected < max { selected + 1 } else { max };
        return Some(select_event(host, next));
    }
    if key_matches_nav_up(key, &state.keymap) {
        let prev = if selected > 0 { selected - 1 } else { 0 };
        return Some(select_event(host, prev));
    }
    if code == KeyCode::PageDown {
        let next = if selected < max && 20 < max - selected { selected + 20 } else { max };
        return Some(select_event(host, next));
    }
    if code == KeyCode::PageUp {
        let prev = if selected > 20 { selected - 20 } else { 0 };
        return Some(select_event(host, prev));
    }
    if code == KeyCode::Char('g') && mods == KeyModifiers::none() {
        return Some(select_event(host, 0));
    }
    if code == KeyCode::Char('G') {
        return Some(select_event(host, max));
    }
    if code == KeyCode::Enter {
        if on_parent {
            return Some(if host { AppEvent::ExplorerHostGoUp } else { AppEvent::ExplorerContainerGoUp });
        }
        return match entry_exec(p, show_parent) {
            Some(e) => if e.is_dir {
                Some(if host { AppEvent::ExplorerHostEnterDir(e.name.clone()) } else { AppEvent::ExplorerContainerEnterDir(e.name.clone()) })
            } else {
                None
            },
            None => None,
        };
    }
    if code == KeyCode::Char('r') && mods == KeyModifiers::none() {
        if !on_parent && entry_exec(p, show_parent).is_some() {
            return Some(if host { AppEvent::ExplorerHostActivateRename } else { AppEvent::ExplorerContainerActivateRename });
        }
        return None;
    }
    if code == KeyCode::Char('R') {
        return Some(if host { AppEvent::ExplorerHostRefresh } else { AppEvent::ExplorerContainerRefresh });
    }
    if code == KeyCode::Char('/') && mods == KeyModifiers::none() {
        return Some(if host { AppEvent::ExplorerHostActivateFilter } else { AppEvent::ExplorerContainerActivateFilter });
    }
    if code == KeyCode::Char('c') && mods == KeyModifiers::control() {
        return Some(if host { AppEvent::ExplorerCopyToContainer } else { AppEvent::ExplorerCopyFromContainer });
    }
    if code == KeyCode::Char('p') && mods == KeyModifiers::control() {
        return Some(if host { AppEvent::ExplorerHostActivateGoto } else { AppEvent::ExplorerContainerActivateGoto });
    }
    if code == KeyCode::Char('d') && mods == KeyModifiers::none() {
        if on_parent {
            return None;
        }
        return match entry_exec(p, show_parent) {
            Some(e) => Some(delete_dialog(state, host, p.path.as_str(), e.name.as_str())),
            None => None,
        };
    }
    if code == KeyCode::Esc {
        return Some(AppEvent::Back);
    }
    None
}

/// What a key does in the file explorer (see [`explorer_key`]).
pub fn handle_key(key: KeyEvent, state: &AppState) -> (r: Option<AppEvent>)
    ensures
        explorer_key(*state, key.code, key.modifiers, r),
{
    if state.explorer.host.filter_active || state.explorer.container.filter_active {
        return handle_filter_input(key, state);
    }
    if state.explorer.host.rename_active || state.explorer.container.rename_active {
        return handle_rename_input(key, state);
    }
    if state.explorer.host.goto_active || state.explorer.container.goto_active {
        return handle_goto_input(key, state);
    }
    handle_panel_key(key, state)
}

} // verus!
