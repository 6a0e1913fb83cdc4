//! The first look at a key or mouse event: what holds in every view, before
//! the view on top gets the key.

use vstd::prelude::*;
use crate::event::{AppEvent, MouseClickKind};
use crate::handlers::{KeyEvent, KeyEventKind, KeyResult};
use crate::handlers::explorer::explorer_key;
use crate::handlers::lists::{handle_key_with_clipboard, list_key_result};
use crate::handlers::views::{
    confirm_key, details_key, events_key, handle_confirm_dialog_key, handle_details_key,
    handle_events_key, handle_help_key, handle_image_run_key, handle_log_key,
    handle_shell_config_key, handle_shell_key, handle_statistics_key, help_key, log_key, run_key,
    shell_form_key, shell_key, statistics_key,
};
use crate::keymap::{any_matches, no_mods, shift, KeyCode, KeyModifiers};
use crate::mode::{is_base, mode_of_tab, mode_to_tab, tab_to_mode, Mode, TAB_COUNT};
use crate::reducers::navigation::stack;
use crate::state::AppState;

verus! {

/// A mouse button.
#[derive(Clone, Copy, Debug, PartialEq, Eq, Structural)]
pub enum MouseButton {
    Left,
    Right,
    Middle,
}

/// What the mouse did.
#[derive(Clone, Copy, Debug, PartialEq, Eq, Structural)]
pub enum MouseEventKind {
    Down(MouseButton),
    Up(MouseButton),
    Drag(MouseButton),
    Moved,
    ScrollDown,
    ScrollUp,
    ScrollLeft,
    ScrollRight,
}

/// A mouse event as the terminal reports it, at a cell of the screen.
#[derive(Clone, Copy, Debug, PartialEq, Eq, Structural)]
pub struct MouseEvent {
    pub kind: MouseEventKind,
    pub column: u16,
    pub row: u16,
    pub modifiers: KeyModifiers,
}

/// The kind of click a mouse event is, if the application reacts to it: a
/// press of the left button, or a turn of the wheel up or down.
pub open spec fn click_kind(kind: MouseEventKind) -> Option<MouseClickKind> {
    match kind {
        MouseEventKind::Down(MouseButton::Left) => Some(MouseClickKind::Left),
        MouseEventKind::ScrollDown => Some(MouseClickKind::ScrollDown),
        MouseEventKind::ScrollUp => Some(MouseClickKind::ScrollUp),
        _ => None,
    }
}

/// The event of a mouse event: a click where it happened, for the kinds of
/// [`click_kind`], and nothing for the others.
pub fn handle_mouse(event: MouseEvent) -> (r: Option<AppEvent>)
    ensures
        r == (match click_kind(event.kind) {
            Some(k) => Some(AppEvent::MouseClick { row: event.row, col: event.column, kind: k }),
            None => None,
        }),
{
    let kind = match event.kind {
        MouseEventKind::Down(MouseButton::Left) => MouseClickKind::Left,
        MouseEventKind::ScrollDown => MouseClickKind::ScrollDown,
        MouseEventKind::ScrollUp => MouseClickKind::ScrollUp,
        _ => {
            return None;
        },
    };
    Some(AppEvent::MouseClick { row: event.row, col: event.column, kind })
}

/// Whether a text input, a column picker or a form has the keyboard: the
/// global shortcuts are off then.
pub open spec fn in_input_mode(s: AppState) -> bool {
    ||| s.containers.filter_active
    ||| s.images.filter_active
    ||| s.events.filter_active
    ||| s.containers.show_column_picker
    ||| s.images.show_column_picker
    ||| s.networks.show_column_picker
    ||| s.volumes.show_column_picker
    ||| (s.navigation.logs matches Some(l) && l.search_active)
    ||| s.navigation.shell_config is Some
    ||| s.navigation.image_run is Some
    ||| s.explorer.host.filter_active
    ||| s.explorer.container.filter_active
}

fn input_mode(s: &AppState) -> (r: bool)
    ensures
        r == in_input_mode(*s),
{
    let log_search = match &s.navigation.logs {
        Some(l) => l.search_active,
        None => false,
    };
    s.containers.filter_active
        || s.images.filter_active
        || s.events.filter_active
        || s.containers.show_column_picker
        || s.images.show_column_picker
        || s.networks.show_column_picker
        || s.volumes.show_column_picker
        || log_search
        || s.navigation.shell_config.is_some()
        || s.navigation.image_run.is_some()
        || s.explorer.host.filter_active
        || s.explorer.container.filter_active
}

/// Whether a list is in multi-selection mode, where Esc leaves that mode
/// instead of the view.
pub open spec fn any_selection_mode(s: AppState) -> bool {
    s.container_extra.selection_mode || s.images.selection_mode || s.networks.selection_mode
        || s.volumes.selection_mode
}

/// The base view a letter jumps to from a base view `top`: c, i, n, v, e
/// and % open the containers, images, networks, volumes, events and
/// statistics, unless that view is already on top.
pub open spec fn jump_target(top: Mode, code: KeyCode) -> Option<Mode> {
    if code == KeyCode::Char('c') && !(top is Containers) {
        Some(Mode::Containers)
    } else if code == KeyCode::Char('i') && !(top is Images) {
        Some(Mode::Images)
    } else if code == KeyCode::Char('n') && !(top is Networks) {
        Some(Mode::Networks)
    } else if code == KeyCode::Char('v') && !(top is Volumes) {
        Some(Mode::Volumes)
    } else if code == KeyCode::Char('e') && !(top is Events) {
        Some(Mode::Events)
    } else if code == KeyCode::Char('%') && !(top is Statistics) {
        Some(Mode::Statistics)
    } else {
        None
    }
}

fn jump_target_exec(top: &Mode, code: KeyCode) -> (r: Option<Mode>)
    ensures
        r == jump_target(*top, code),
{
    if code == KeyCode::Char('c') && !matches!(top, Mode::Containers) {
        Some(Mode::Containers)
    } else if code == KeyCode::Char('i') && !matches!(top, Mode::Images) {
        Some(Mode::Images)
    } else if code == KeyCode::Char('n') && !matches!(top, Mode::Networks) {
        Some(Mode::Networks)
    } else if code == KeyCode::Char('v') && !matches!(top, Mode::Volumes) {
        Some(Mode::Volumes)
    } else if code == KeyCode::Char('e') && !matches!(top, Mode::Events) {
        Some(Mode::Events)
    } else if code == KeyCode::Char('%') && !matches!(top, Mode::Statistics) {
        Some(Mode::Statistics)
    } else {
        None
    }
}

/// An event as a key result.
pub open spec fn as_key_result(e: Option<AppEvent>) -> Option<KeyResult> {
    match e {
        Some(e) => Some(KeyResult::Event(e)),
        None => None,
    }
}

/// The event a key result carries, if it carries one.
pub open spec fn event_of(r: Option<KeyResult>) -> Option<AppEvent> {
    match r {
        Some(KeyResult::Event(e)) => Some(e),
        _ => None,
    }
}

/// Whether a key result is an event or nothing (no clipboard copy), and
/// `allowed` holds of its event.
pub open spec fn event_result(r: Option<KeyResult>, allowed: bool) -> bool {
    !(r matches Some(KeyResult::Copy { .. })) && allowed
}

/// What the view on top does with a key that no global shortcut took.
pub open spec fn view_key_result(s: AppState, code: KeyCode, mods: KeyModifiers, r: Option<KeyResult>) -> bool {
    match stack(s).last() {
        Mode::Containers | Mode::Images | Mode::Networks | Mode::Volumes => list_key_result(s, code, mods, r),
        Mode::ContainerDetails(_) => r == as_key_result(details_key(s, code, mods)),
        Mode::Logs(_) => event_result(r, log_key(s, code, mods, event_of(r))),
        Mode::ImageRun(_) => event_result(r, run_key(s, code, mods, event_of(r))),
        Mode::ShellConfig(_) => event_result(r, shell_form_key(s, code, mods, event_of(r))),
        Mode::Shell(_) => r == as_key_result(shell_key(code, mods)),
        Mode::Events => event_result(r, events_key(s, code, mods, event_of(r))),
        Mode::Statistics => r == as_key_result(statistics_key(s, code, mods)),
        Mode::Help => r == as_key_result(help_key(s, code, mods)),
        Mode::ConfirmDialog { .. } => r == as_key_result(confirm_key(code)),
        Mode::Explorer(_) | Mode::ExplorerVolume(_, _) => event_result(r, explorer_key(s, code, mods, event_of(r))),
    }
}

/// The event that opens a view.
pub open spec fn navigate(m: Mode) -> Option<KeyResult> {
    Some(KeyResult::Event(AppEvent::Navigate(m)))
}

/// What a key does, in order: only presses and repeats count; Esc ends a
/// log search; while an error is pinned, any key dismisses it; then the
/// global shortcuts (quit, back, help, Tab and BackTab between the tabs,
/// 'm' for the mouse, 'U' for an update check, the letters that jump
/// between base views), all but 'U' off while a text input has the
/// keyboard; else the view on top decides.
pub open spec fn key_result(s: AppState, key: KeyEvent, r: Option<KeyResult>) -> bool {
    let km = s.keymap;
    let code = key.code;
    let mods = key.modifiers;
    let top = stack(s).last();
    let input = in_input_mode(s);
    if key.kind != KeyEventKind::Press && key.kind != KeyEventKind::Repeat {
        r is None
    } else if top is Logs && (s.navigation.logs matches Some(l) && l.search_active) && code == KeyCode::Esc {
        r matches Some(KeyResult::Event(AppEvent::SearchLogs(q))) && q@.len() == 0
    } else if s.error_persistent {
        r matches Some(KeyResult::Event(AppEvent::Info(q))) && q@.len() == 0
    } else if any_matches(km.quit@, code, mods) && !input {
        r == Some(KeyResult::Event(AppEvent::Quit))
    } else if any_matches(km.back@, code, mods) && !input && !any_selection_mode(s) {
        if top is Help && stack(s).len() > 1 {
            r == Some(KeyResult::Event(AppEvent::Back))
        } else if top is Help {
            r == navigate(mode_of_tab(s.previous_tab))
        } else if stack(s).len() > 1 {
            r == Some(KeyResult::Event(AppEvent::Back))
        } else {
            r is None
        }
    } else if any_matches(km.help@, code, mods) && !input {
        if top is Help {
            r is None
        } else if is_base(top) {
            r == navigate(Mode::Help)
        } else {
            r == Some(KeyResult::Event(AppEvent::ShowHelp))
        }
    } else if !input && (code == KeyCode::Tab || code == KeyCode::BackTab) && is_base(top) {
        if code == KeyCode::Tab && mods == no_mods() {
            r == navigate(mode_of_tab(((s.selected_tab + 1) % (TAB_COUNT as int)) as usize))
        } else if code == KeyCode::BackTab || mods == shift() {
            r == navigate(mode_of_tab(((s.selected_tab + TAB_COUNT - 1) % (TAB_COUNT as int)) as usize))
        } else {
            r is None
        }
    } else if code == KeyCode::Char('m') && !input {
        r == Some(KeyResult::Event(AppEvent::ToggleMouse))
    } else if code == KeyCode::Char('U') {
        r == Some(KeyResult::Event(AppEvent::CheckUpdate))
    } else if !input && is_base(top) && jump_target(top, code) is Some {
        r == navigate(jump_target(top, code).unwrap())
    } else {
        view_key_result(s, code, mods, r)
    }
}

fn wrap(e: Option<AppEvent>) -> (r: Option<KeyResult>)
    ensures
        r == as_key_result(e),
        event_of(r) == e,
        !(r matches Some(KeyResult::Copy { .. })),
{
    match e {
        Some(e) => Some(KeyResult::Event(e)),
        None => None,
    }
}

fn view_key(key: KeyEvent, state: &AppState) -> (r: Option<KeyResult>)
    ensures
        view_key_result(*state, key.code, key.modifiers, r),
{
    match state.navigation.mode_stack.current() {
        Mode::Containers | Mode::Images | Mode::Networks | Mode::Volumes => handle_key_with_clipboard(key, state),
        Mode::ContainerDetails(_) => wrap(handle_details_key(key, state)),
        Mode::Logs(_) => wrap(handle_log_key(key, state)),
        Mode::ImageRun(_) => wrap(handle_image_run_key(key, state)),
        Mode::ShellConfig(_) => wrap(handle_shell_config_key(key, state)),
        Mode::Shell(_) => wrap(handle_shell_key(key)),
        Mode::Events => wrap(handle_events_key(key, state)),
        Mode::Statistics => wrap(handle_statistics_key(key, state)),
        Mode::Help => wrap(handle_help_key(key, state)),
        Mode::ConfirmDialog { .. } => wrap(handle_confirm_dialog_key(key)),
        Mode::Explorer(_) | Mode::ExplorerVolume(_, _) => wrap(crate::handlers::explorer::handle_key(key, state)),
    }
}

fn next_tab(tab: usize) -> (r: usize)
    ensures
        r == (tab + 1) % (TAB_COUNT as int),
{
    proof {
        vstd::arithmetic::div_mod::lemma_add_mod_noop(tab as int, 1, TAB_COUNT as int);
    }
    (tab % TAB_COUNT + 1) % TAB_COUNT
}

fn previous_tab(tab: usize) -> (r: usize)
    ensures
        r == (tab + TAB_COUNT - 1) % (TAB_COUNT as int),
{
    proof {
        vstd::arithmetic::div_mod::lemma_add_mod_noop(tab as int, (TAB_COUNT - 1) as int, TAB_COUNT as int);
    }
    (tab % TAB_COUNT + (TAB_COUNT - 1)) % TAB_COUNT
}

/// What a key does (see [`key_result`]).
pub fn handle_key(key: KeyEvent, state: &AppState) -> (r: Option<KeyResult>)
    ensures
        key_result(*state, key, r),
{
    if key.kind != KeyEventKind::Press && key.kind != KeyEventKind::Repeat {
        return None;
    }
    let top = state.navigation.mode_stack.current();
    let log_search = match &state.navigation.logs {
        Some(l) => l.search_active,
        None => false,
    };
    if matches!(top, Mode::Logs(_)) && log_search && key.code == KeyCode::Esc {
        return Some(KeyResult::Event(AppEvent::SearchLogs(String::new())));
    }
    if state.error_persistent {
        return Some(KeyResult::Event(AppEvent::Info(String::new())));
    }
    let input = input_mode(state);
    let km = &state.keymap;
    let code = key.code;
    let mods = key.modifiers;
    if km.is_quit(code, mods) && !input {
        return Some(KeyResult::Event(AppEvent::Quit));
    }
    let depth = state.navigation.mode_stack.len();
    if km.is_back(code, mods) && !input {
        let selecting = state.container_extra.selection_mode || state.images.selection_mode
            || state.networks.selection_mode || state.volumes.selection_mode;
        if !selecting {
            if matches!(top, Mode::Help) && depth > 1 {
                return Some(KeyResult::Event(AppEvent::Back));
            } else if matches!(top, Mode::Help) {
                return Some(KeyResult::Event(AppEvent::Navigate(tab_to_mode(state.previous_tab))));
            } else if depth > 1 {
                return Some(KeyResult::Event(AppEvent::Back));
            } else {
                return None;
            }
        }
    }
    let base = mode_to_tab(top).is_some();
    if km.is_help(code, mods) && !input {
        if matches!(top, Mode::Help) {
            return None;
        }
        if base {
            return Some(KeyResult::Event(AppEvent::Navigate(Mode::Help)));
        } else {
            return Some(KeyResult::Event(AppEvent::ShowHelp));
        }
    }
    if !input && (code == KeyCode::Tab || code == KeyCode::BackTab) && base {
        if code == KeyCode::Tab && mods == KeyModifiers::none() {
            return Some(KeyResult::Event(AppEvent::Navigate(tab_to_mode(next_tab(state.selected_tab)))));
        } else if code == KeyCode::BackTab || mods == KeyModifiers::shift() {
            return Some(KeyResult::Event(AppEvent::Navigate(tab_to_mode(previous_tab(state.selected_tab)))));
        } else {
            return None;
        }
    }
    if code == KeyCode::Char('m') && !input {
        return Some(KeyResult::Event(AppEvent::ToggleMouse));
    }
    if code == KeyCode::Char('U') {
        return Some(KeyResult::Event(AppEvent::CheckUpdate));
    }
    if !input && base {
        if let Some(m) = jump_target_exec(top, code) {
            return Some(KeyResult::Event(AppEvent::Navigate(m)));
        }
    }
    view_key(key, state)
}

} // verus!
