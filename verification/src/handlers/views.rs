//! Keys in the views that are not lists: container details, confirmation
//! dialogs, help, logs, events, statistics, the run form, the shell form
//! and a shell session.

use vstd::prelude::*;
use crate::event::{AppEvent, ImageRunField, ShellConfigField};
use crate::handlers::{edit_text, edited, erased, is_erase, typed, KeyEvent};
use crate::keymap::{any_matches, control, no_mods, shift, KeyCode, KeyModifiers};
use crate::mode::Mode;
use crate::reducers::container::is_running;
use crate::reducers::navigation::position_of_container;
use crate::state::{AppState, ImageRunState, ShellConfigState};
use crate::text::{owned, str_eq};

verus! {

/// What a key does in the container details.
pub open spec fn details_key(s: AppState, code: KeyCode, mods: KeyModifiers) -> Option<AppEvent> {
    let km = s.keymap;
    let d = s.navigation.details;
    if any_matches(km.open_logs@, code, mods) {
        match d { Some(d) => Some(AppEvent::Navigate(Mode::Logs(d.id))), None => None }
    } else if any_matches(km.open_shell@, code, mods) {
        match d { Some(d) => Some(AppEvent::Navigate(Mode::ShellConfig(d.id))), None => None }
    } else if any_matches(km.restart@, code, mods) {
        match d { Some(d) => Some(AppEvent::RestartContainer(d.id)), None => None }
    } else if any_matches(km.start_stop@, code, mods) {
        match d {
            Some(d) => Some(if is_running(s.containers.items@, d.id@) { AppEvent::StopContainer(d.id) } else { AppEvent::StartContainer(d.id) }),
            None => None,
        }
    } else if any_matches(km.navigate_up@, code, mods) || code == KeyCode::Up {
        Some(AppEvent::ScrollDetails(-1i32))
    } else if any_matches(km.navigate_down@, code, mods) || code == KeyCode::Down {
        Some(AppEvent::ScrollDetails(1i32))
    } else if code == KeyCode::PageUp {
        Some(AppEvent::ScrollDetails(-20i32))
    } else if code == KeyCode::PageDown {
        Some(AppEvent::ScrollDetails(20i32))
    } else if any_matches(km.jump_top@, code, mods) {
        Some(AppEvent::ScrollDetails(-10000i32))
    } else if any_matches(km.jump_bottom@, code, mods) {
        Some(AppEvent::ScrollDetails(10000i32))
    } else {
        None
    }
}

/// What a key does in the container details (see [`details_key`]).
pub fn handle_details_key(key: KeyEvent, state: &AppState) -> (r: Option<AppEvent>)
    ensures
        r == details_key(*state, key.code, key.modifiers),
{
    let km = &state.keymap;
    let code = key.code;
    let mods = key.modifiers;
    if km.is_open_logs(code, mods) {
        return match &state.navigation.details { Some(d) => Some(AppEvent::Navigate(Mode::Logs(d.id.clone()))), None => None };
    }
    if km.is_open_shell(code, mods) {
        return match &state.navigation.details { Some(d) => Some(AppEvent::Navigate(Mode::ShellConfig(d.id.clone()))), None => None };
    }
    if km.is_restart(code, mods) {
        return match &state.navigation.details { Some(d) => Some(AppEvent::RestartContainer(d.id.clone())), None => None };
    }
    if km.is_start_stop(code, mods) {
        return match &state.navigation.details {
            Some(d) => {
                let running = match position_of_container(&state.containers.items, d.id.as_str()) {
                    Some(k) => str_eq(state.containers.items[k].state.as_str(), "running"),
                    None => false,
                };
                Some(if running { AppEvent::StopContainer(d.id.clone()) } else { AppEvent::StartContainer(d.id.clone()) })
            }
            None => None,
        };
    }
    if km.is_navigate_up(code, mods) || code == KeyCode::Up {
        return Some(AppEvent::ScrollDetails(-1i32));
    }
    if km.is_navigate_down(code, mods) || code == KeyCode::Down {
        return Some(AppEvent::ScrollDetails(1i32));
    }
    if code == KeyCode::PageUp {
        return Some(AppEvent::ScrollDetails(-20i32));
    }
    if code == KeyCode::PageDown {
        return Some(AppEvent::ScrollDetails(20i32));
    }
    if km.is_jump_top(code, mods) {
        return Some(AppEvent::ScrollDetails(-10000i32));
    }
    if km.is_jump_bottom(code, mods) {
        return Some(AppEvent::ScrollDetails(10000i32));
    }
    None
}

/// What a key does in a confirmation dialog: y, Y or Enter confirms; n, N
/// or Esc declines.
pub open spec fn confirm_key(code: KeyCode) -> Option<AppEvent> {
    if code == KeyCode::Char('y') || code == KeyCode::Char('Y') || code == KeyCode::Enter {
        Some(AppEvent::ConfirmYes)
    } else if code == KeyCode::Char('n') || code == KeyCode::Char('N') || code == KeyCode::Esc {
        Some(AppEvent::ConfirmNo)
    } else {
        None
    }
}

/// What a key does in a confirmation dialog (see [`confirm_key`]).
pub fn handle_confirm_dialog_key(key: KeyEvent) -> (r: Option<AppEvent>)
    ensures
        r == confirm_key(key.code),
{
    match key.code {
        KeyCode::Char('y') | KeyCode::Char('Y') | KeyCode::Enter => Some(AppEvent::ConfirmYes),
        KeyCode::Char('n') | KeyCode::Char('N') | KeyCode::Esc => Some(AppEvent::ConfirmNo),
        _ => None,
    }
}

/// What a key does in the help view.
pub open spec fn help_key(s: AppState, code: KeyCode, mods: KeyModifiers) -> Option<AppEvent> {
    let km = s.keymap;
    if code == KeyCode::Esc || any_matches(km.help@, code, mods) {
        Some(AppEvent::HideHelp)
    } else if any_matches(km.navigate_down@, code, mods) || code == KeyCode::Down || code == KeyCode::PageDown {
        Some(AppEvent::ScrollHelp(1i32))
    } else if any_matches(km.navigate_up@, code, mods) || code == KeyCode::Up || code == KeyCode::PageUp {
        Some(AppEvent::ScrollHelp(-1i32))
    } else if any_matches(km.jump_top@, code, mods) {
        Some(AppEvent::ScrollHelp(-10000i32))
    } else if any_matches(km.jump_bottom@, code, mods) {
        Some(AppEvent::ScrollHelp(10000i32))
    } else {
        None
    }
}

/// What a key does in the help view (see [`help_key`]).
pub fn handle_help_key(key: KeyEvent, state: &AppState) -> (r: Option<AppEvent>)
    ensures
        r == help_key(*state, key.code, key.modifiers),
{
    let km = &state.keymap;
    let code = key.code;
    let mods = key.modifiers;
    if code == KeyCode::Esc || km.is_help(code, mods) {
        return Some(AppEvent::HideHelp);
    }
    if km.is_navigate_down(code, mods) || code == KeyCode::Down || code == KeyCode::PageDown {
        return Some(AppEvent::ScrollHelp(1i32));
    }
    if km.is_navigate_up(code, mods) || code == KeyCode::Up || code == KeyCode::PageUp {
        return Some(AppEvent::ScrollHelp(-1i32));
    }
    if km.is_jump_top(code, mods) {
        return Some(AppEvent::ScrollHelp(-10000i32));
    }
    if km.is_jump_bottom(code, mods) {
        return Some(AppEvent::ScrollHelp(10000i32));
    }
    None
}

/// What a key does in the log view. While the search input is open, keys
/// edit the search; otherwise they pause, search, jump, export and scroll.
pub open spec fn log_key(s: AppState, code: KeyCode, mods: KeyModifiers, r: Option<AppEvent>) -> bool {
    let km = s.keymap;
    let logs = s.navigation.logs;
    let searching = logs matches Some(l) && l.search_active;
    if searching {
        let l = logs->0;
        if code == KeyCode::Esc {
            r matches Some(AppEvent::SearchLogs(q)) && q@.len() == 0
        } else if code == KeyCode::Enter {
            r == Some(AppEvent::SubmitLogSearch)
        } else {
            match edited(code, mods, l.search@) {
                Some(t) => r matches Some(AppEvent::SearchLogs(q)) && q@ == t,
                None => r is None,
            }
        }
    } else {
        r == (if any_matches(km.toggle_selection@, code, mods) || code == KeyCode::Char('p') {
            Some(AppEvent::TogglePause)
        } else if code == KeyCode::Char('r') {
            match logs { Some(l) => if l.paused { Some(AppEvent::TogglePause) } else { None }, None => None }
        } else if any_matches(km.search@, code, mods) {
            Some(AppEvent::ActivateLogSearch)
        } else if any_matches(km.jump_top@, code, mods) {
            Some(AppEvent::JumpTop)
        } else if any_matches(km.jump_bottom@, code, mods) {
            Some(AppEvent::JumpBottom)
        } else if code == KeyCode::Char('s') {
            match logs { Some(l) => Some(AppEvent::ExportLogs(l.container_id)), None => None }
        } else if any_matches(km.toggle_timestamps@, code, mods) {
            Some(AppEvent::ToggleLogTimestamps)
        } else if any_matches(km.logs_export@, code, mods) {
            match logs { Some(l) => Some(AppEvent::ExportLogs(l.container_id)), None => None }
        } else if code == KeyCode::Up || any_matches(km.navigate_up@, code, mods) {
            Some(AppEvent::ScrollLogs(1i32))
        } else if code == KeyCode::Down || any_matches(km.navigate_down@, code, mods) {
            Some(AppEvent::ScrollLogs(-1i32))
        } else if code == KeyCode::PageUp {
            Some(AppEvent::ScrollLogs(20i32))
        } else if code == KeyCode::PageDown {
            Some(AppEvent::ScrollLogs(-20i32))
        } else {
            None
        })
    }
}

/// What a key does in the log view (see [`log_key`]).
pub fn handle_log_key(key: KeyEvent, state: &AppState) -> (r: Option<AppEvent>)
    ensures
        log_key(*state, key.code, key.modifiers, r),
{
    let km = &state.keymap;
    let code = key.code;
    let mods = key.modifiers;
    if let Some(l) = &state.navigation.logs {
        if l.search_active {
            if code == KeyCode::Esc {
                return Some(AppEvent::SearchLogs(String::new()));
            }
            if code == KeyCode::Enter {
                return Some(AppEvent::SubmitLogSearch);
            }
            return match edit_text(code, mods, &l.search) {
                Some(q) => Some(AppEvent::SearchLogs(q)),
                None => None,
            };
        }
    }
    if km.is_toggle_selection(code, mods) || code == KeyCode::Char('p') {
        return Some(AppEvent::TogglePause);
    }
    if code == KeyCode::Char('r') {
        return match &state.navigation.logs {
            Some(l) => if l.paused { Some(AppEvent::TogglePause) } else { None },
            None => None,
        };
    }
    if km.is_search(code, mods) {
        return Some(AppEvent::ActivateLogSearch);
    }
    if km.is_jump_top(code, mods) {
        return Some(AppEvent::JumpTop);
    }
    if km.is_jump_bottom(code, mods) {
        return Some(AppEvent::JumpBottom);
    }
    if code == KeyCode::Char('s') {
        return match &state.navigation.logs { Some(l) => Some(AppEvent::ExportLogs(l.container_id.clone())), None => None };
    }
    if km.is_toggle_timestamps(code, mods) {
        return Some(AppEvent::ToggleLogTimestamps);
    }
    if km.is_logs_export(code, mods) {
        return match &state.navigation.logs { Some(l) => Some(AppEvent::ExportLogs(l.container_id.clone())), None => None };
    }
    if code == KeyCode::Up || km.is_navigate_up(code, mods) {
        return Some(AppEvent::ScrollLogs(1i32));
    }
    if code == KeyCode::Down || km.is_navigate_down(code, mods) {
        return Some(AppEvent::ScrollLogs(-1i32));
    }
    if code == KeyCode::PageUp {
        return Some(AppEvent::ScrollLogs(20i32));
    }
    if code == KeyCode::PageDown {
        return Some(AppEvent::ScrollLogs(-20i32));
    }
    None
}

/// What a key does in the events view. While the filter input is open,
/// keys edit the filter; otherwise they jump, scroll and open the filter.
pub open spec fn events_key(s: AppState, code: KeyCode, mods: KeyModifiers, r: Option<AppEvent>) -> bool {
    let km = s.keymap;
    if s.events.filter_active {
        if code == KeyCode::Esc {
            r matches Some(AppEvent::FilterEvents(q)) && q@.len() == 0
        } else if code == KeyCode::Enter {
            r == Some(AppEvent::EventsFilterSubmit)
        } else {
            match edited(code, mods, s.events.filter@) {
                Some(t) => r matches Some(AppEvent::FilterEvents(q)) && q@ == t,
                None => r is None,
            }
        }
    } else {
        r == (if any_matches(km.jump_top@, code, mods) {
            Some(AppEvent::JumpTop)
        } else if any_matches(km.jump_bottom@, code, mods) {
            Some(AppEvent::JumpBottom)
        } else if any_matches(km.navigate_up@, code, mods) || code == KeyCode::Up {
            Some(AppEvent::ScrollEvents(1i32))
        } else if any_matches(km.navigate_down@, code, mods) || code == KeyCode::Down {
            Some(AppEvent::ScrollEvents(-1i32))
        } else if code == KeyCode::PageUp {
            Some(AppEvent::ScrollEvents(20i32))
        } else if code == KeyCode::PageDown {
            Some(AppEvent::ScrollEvents(-20i32))
        } else if any_matches(km.search@, code, mods) {
            Some(AppEvent::ActivateEventsFilter)
        } else {
            None
        })
    }
}

/// What a key does in the events view (see [`events_key`]).
pub fn handle_events_key(key: KeyEvent, state: &AppState) -> (r: Option<AppEvent>)
    ensures
        events_key(*state, key.code, key.modifiers, r),
{
    let km = &state.keymap;
    let code = key.code;
    let mods = key.modifiers;
    if state.events.filter_active {
        if code == KeyCode::Esc {
            return Some(AppEvent::FilterEvents(String::new()));
        }
        if code == KeyCode::Enter {
            return Some(AppEvent::EventsFilterSubmit);
        }
        return match edit_text(code, mods, &state.events.filter) {
            Some(q) => Some(AppEvent::FilterEvents(q)),
            None => None,
        };
    }
    if km.is_jump_top(code, mods) {
        return Some(AppEvent::JumpTop);
    }
    if km.is_jump_bottom(code, mods) {
        return Some(AppEvent::JumpBottom);
    }
    if km.is_navigate_up(code, mods) || code == KeyCode::Up {
        return Some(AppEvent::ScrollEvents(1i32));
    }
    if km.is_navigate_down(code, mods) || code == KeyCode::Down {
        return Some(AppEvent::ScrollEvents(-1i32));
    }
    if code == KeyCode::PageUp {
        return Some(AppEvent::ScrollEvents(20i32));
    }
    if code == KeyCode::PageDown {
        return Some(AppEvent::ScrollEvents(-20i32));
    }
    if km.is_search(code, mods) {
        return Some(AppEvent::ActivateEventsFilter);
    }
    None
}

/// What a key does in the statistics view.
pub open spec fn statistics_key(s: AppState, code: KeyCode, mods: KeyModifiers) -> Option<AppEvent> {
    let km = s.keymap;
    if code == KeyCode::Esc {
        Some(AppEvent::Back)
    } else if any_matches(km.statistics_sort@, code, mods) {
        Some(AppEvent::CycleSortStat(1i32))
    } else if any_matches(km.statistics_sort_desc@, code, mods) {
        Some(AppEvent::ToggleSortDirection)
    } else if code == KeyCode::Left {
        Some(AppEvent::CycleSortStat(-1i32))
    } else if code == KeyCode::Right {
        Some(AppEvent::CycleSortStat(1i32))
    } else {
        None
    }
}

/// What a key does in the statistics view (see [`statistics_key`]).
pub fn handle_statistics_key(key: KeyEvent, state: &AppState) -> (r: Option<AppEvent>)
    ensures
        r == statistics_key(*state, key.code, key.modifiers),
{
    let km = &state.keymap;
    let code = key.code;
    let mods = key.modifiers;
    if code == KeyCode::Esc {
        return Some(AppEvent::Back);
    }
    if km.is_statistics_sort(code, mods) {
        return Some(AppEvent::CycleSortStat(1i32));
    }
    if km.is_statistics_sort_desc(code, mods) {
        return Some(AppEvent::ToggleSortDirection);
    }
    if code == KeyCode::Left {
        return Some(AppEvent::CycleSortStat(-1i32));
    }
    if code == KeyCode::Right {
        return Some(AppEvent::CycleSortStat(1i32));
    }
    None
}

/// The text field of the run form on row `focus`, if that row is a text
/// field (row 8 is the auto-remove switch, row 14 the privileged switch).
pub open spec fn run_text_field(focus: usize) -> Option<ImageRunField> {
    if focus == 0 { Some(ImageRunField::Command) }
    else if focus == 1 { Some(ImageRunField::Shell) }
    else if focus == 2 { Some(ImageRunField::User) }
    else if focus == 3 { Some(ImageRunField::Workdir) }
    else if focus == 4 { Some(ImageRunField::EnvVars) }
    else if focus == 5 { Some(ImageRunField::PortMapping) }
    else if focus == 6 { Some(ImageRunField::Volumes) }
    else if focus == 7 { Some(ImageRunField::ContainerName) }
    else if focus == 9 { Some(ImageRunField::RestartPolicy) }
    else if focus == 10 { Some(ImageRunField::MemoryLimit) }
    else if focus == 11 { Some(ImageRunField::CpuLimit) }
    else if focus == 12 { Some(ImageRunField::Network) }
    else if focus == 13 { Some(ImageRunField::Labels) }
    else { None }
}

/// The text of a field of the run form.
pub open spec fn run_field_text(run: ImageRunState, f: ImageRunField) -> String {
    match f {
        ImageRunField::Command => run.command,
        ImageRunField::Shell => run.shell,
        ImageRunField::User => run.user,
        ImageRunField::Workdir => run.workdir,
        ImageRunField::EnvVars => run.env_vars,
        ImageRunField::PortMapping => run.port_mapping,
        ImageRunField::Volumes => run.volumes,
        ImageRunField::ContainerName => run.container_name,
        ImageRunField::RestartPolicy => run.restart_policy,
        ImageRunField::MemoryLimit => run.memory_limit,
        ImageRunField::CpuLimit => run.cpu_limit,
        ImageRunField::Network => run.network,
        ImageRunField::Labels => run.labels,
        ImageRunField::Privileged => run.command,
    }
}

fn run_text_field_exec(focus: usize) -> (r: Option<ImageRunField>)
    ensures
        r == run_text_field(focus),
{
    if focus == 0 { Some(ImageRunField::Command) }
    else if focus == 1 { Some(ImageRunField::Shell) }
    else if focus == 2 { Some(ImageRunField::User) }
    else if focus == 3 { Some(ImageRunField::Workdir) }
    else if focus == 4 { Some(ImageRunField::EnvVars) }
    else if focus == 5 { Some(ImageRunField::PortMapping) }
    else if focus == 6 { Some(ImageRunField::Volumes) }
    else if focus == 7 { Some(ImageRunField::ContainerName) }
    else if focus == 9 { Some(ImageRunField::RestartPolicy) }
    else if focus == 10 { Some(ImageRunField::MemoryLimit) }
    else if focus == 11 { Some(ImageRunField::CpuLimit) }
    else if focus == 12 { Some(ImageRunField::Network) }
    else if focus == 13 { Some(ImageRunField::Labels) }
    else { None }
}

fn run_field_text_exec(run: &ImageRunState, f: ImageRunField) -> (r: &String)
    ensures
        *r == run_field_text(*run, f),
{
    match f {
        ImageRunField::Command => &run.command,
        ImageRunField::Shell => &run.shell,
        ImageRunField::User => &run.user,
        ImageRunField::Workdir => &run.workdir,
        ImageRunField::EnvVars => &run.env_vars,
        ImageRunField::PortMapping => &run.port_mapping,
        ImageRunField::Volumes => &run.volumes,
        ImageRunField::ContainerName => &run.container_name,
        ImageRunField::RestartPolicy => &run.restart_policy,
        ImageRunField::MemoryLimit => &run.memory_limit,
        ImageRunField::CpuLimit => &run.cpu_limit,
        ImageRunField::Network => &run.network,
        ImageRunField::Labels => &run.labels,
        ImageRunField::Privileged => &run.command,
    }
}

/// The restart policy after `p` in the cycle none, always, on-failure,
/// unless-stopped.
pub open spec fn next_restart_policy(p: Seq<char>) -> Seq<char> {
    if p.len() == 0 { "always"@ }
    else if p == "always"@ { "on-failure"@ }
    else if p == "on-failure"@ { "unless-stopped"@ }
    else { Seq::empty() }
}

fn next_restart_policy_exec(p: &str) -> (r: String)
    ensures
        r@ == next_restart_policy(p@),
{
    if p.is_empty() {
        owned("always")
    } else if str_eq(p, "always") {
        owned("on-failure")
    } else if str_eq(p, "on-failure") {
        owned("unless-stopped")
    } else {
        String::new()
    }
}

/// What a key does in the run form: Backspace and typing edit the focused
/// text field; Esc goes back; Enter submits; Tab, Down and Up move the
/// focus; 'a' flips the focused switch or cycles the restart policy;
/// Ctrl+A shows or hides the advanced fields.
pub open spec fn run_key(s: AppState, code: KeyCode, mods: KeyModifiers, r: Option<AppEvent>) -> bool {
    let run = s.navigation.image_run;
    if is_erase(code, mods) {
        match run {
            Some(run) => match run_text_field(run.field_focus) {
                Some(f) => r matches Some(AppEvent::ImageRunFieldUpdate(g, v)) && g == f && v@ == erased(run_field_text(run, f)@),
                None => r is None,
            },
            None => r is None,
        }
    } else if code == KeyCode::Esc {
        r == Some(AppEvent::Back)
    } else if code == KeyCode::Enter {
        r == Some(AppEvent::ImageRunSubmit)
    } else if code == KeyCode::Tab || code == KeyCode::Down {
        r == Some(AppEvent::ImageRunFocusNext)
    } else if code == KeyCode::Up {
        r == Some(AppEvent::ImageRunFocusPrev)
    } else if code == KeyCode::Char('a') && (mods == no_mods() || mods == shift()) {
        match run {
            Some(run) => if run.field_focus == 8 {
                r == Some(AppEvent::ImageRunToggleAutoremove)
            } else if run.field_focus == 9 {
                r matches Some(AppEvent::ImageRunFieldUpdate(g, v)) && g == ImageRunField::RestartPolicy
                    && v@ == next_restart_policy(run.restart_policy@)
            } else if run.field_focus == 14 {
                r matches Some(AppEvent::ImageRunFieldUpdate(g, v)) && g == ImageRunField::Privileged && v@.len() == 0
            } else {
                r is None
            },
            None => r is None,
        }
    } else if code == KeyCode::Char('a') && mods == control() {
        r == Some(AppEvent::ImageRunToggleAdvanced)
    } else {
        match typed(code, mods) {
            Some(c) => match run {
                Some(run) => match run_text_field(run.field_focus) {
                    Some(f) => r matches Some(AppEvent::ImageRunFieldUpdate(g, v)) && g == f && v@ == run_field_text(run, f)@.push(c),
                    None => r is None,
                },
                None => r is None,
            },
            None => r is None,
        }
    }
}

/// What a key does in the run form (see [`run_key`]).
pub fn handle_image_run_key(key: KeyEvent, state: &AppState) -> (r: Option<AppEvent>)
    ensures
        run_key(*state, key.code, key.modifiers, r),
{
    let code = key.code;
    let mods = key.modifiers;
    let is_erase_key = code == KeyCode::Backspace || (code == KeyCode::Char('h') && mods == KeyModifiers::control());
    if is_erase_key {
        return match &state.navigation.image_run {
            Some(run) => match run_text_field_exec(run.field_focus) {
                Some(f) => match edit_text(code, mods, run_field_text_exec(run, f)) {
                    Some(v) => Some(AppEvent::ImageRunFieldUpdate(f, v)),
                    None => None,
                },
                None => None,
            },
            None => None,
        };
    }
    if code == KeyCode::Esc {
        return Some(AppEvent::Back);
    }
    if code == KeyCode::Enter {
        return Some(AppEvent::ImageRunSubmit);
    }
    if code == KeyCode::Tab || code == KeyCode::Down {
        return Some(AppEvent::ImageRunFocusNext);
    }
    if code == KeyCode::Up {
        return Some(AppEvent::ImageRunFocusPrev);
    }
    if code == KeyCode::Char('a') && (mods == KeyModifiers::none() || mods == KeyModifiers::shift()) {
        return match &state.navigation.image_run {
            Some(run) => {
                if run.field_focus == 8 {
                    Some(AppEvent::ImageRunToggleAutoremove)
                } else if run.field_focus == 9 {
                    Some(AppEvent::ImageRunFieldUpdate(ImageRunField::RestartPolicy, next_restart_policy_exec(run.restart_policy.as_str())))
                } else if run.field_focus == 14 {
                    Some(AppEvent::ImageRunFieldUpdate(ImageRunField::Privileged, String::new()))
                } else {
                    None
                }
            }
            None => None,
        };
    }
    if code == KeyCode::Char('a') && mods == KeyModifiers::control() {
        return Some(AppEvent::ImageRunToggleAdvanced);
    }
    match &state.navigation.image_run {
        Some(run) => match run_text_field_exec(run.field_focus) {
            Some(f) => match edit_text(code, mods, run_field_text_exec(run, f)) {
                Some(v) => Some(AppEvent::ImageRunFieldUpdate(f, v)),
                None => None,
            },
            None => None,
        },
        None => None,
    }
}

/// The field of the shell form on row `focus`.
pub open spec fn shell_form_field(focus: usize) -> Option<ShellConfigField> {
    if focus == 0 { Some(ShellConfigField::Shell) }
    else if focus == 1 { Some(ShellConfigField::User) }
    else if focus == 2 { Some(ShellConfigField::Workdir) }
    else { None }
}

/// The text of a field of the shell form.
pub open spec fn shell_form_text(c: ShellConfigState, f: ShellConfigField) -> String {
    match f {
        ShellConfigField::Shell => c.shell,
        ShellConfigField::User => c.user,
        ShellConfigField::Workdir => c.workdir,
    }
}

/// What a key does in the shell form: Backspace and typing edit the
/// focused field; Esc goes back; Enter saves and starts the shell; Tab,
/// Down and Up move the focus.
pub open spec fn shell_form_key(s: AppState, code: KeyCode, mods: KeyModifiers, r: Option<AppEvent>) -> bool {
    if code == KeyCode::Esc {
        r == Some(AppEvent::Back)
    } else if code == KeyCode::Enter {
        r == Some(AppEvent::ShellConfigSubmit)
    } else if code == KeyCode::Tab || code == KeyCode::Down {
        r == Some(AppEvent::ShellConfigFocusNext)
    } else if code == KeyCode::Up {
        r == Some(AppEvent::ShellConfigFocusPrev)
    } else {
        match s.navigation.shell_config {
            Some(c) => match shell_form_field(c.field_focus) {
                Some(f) => match edited(code, mods, shell_form_text(c, f)@) {
                    Some(t) => r matches Some(AppEvent::ShellConfigFieldUpdate(g, v)) && g == f && v@ == t,
                    None => r is None,
                },
                None => r is None,
            },
            None => r is None,
        }
    }
}

/// What a key does in the shell form (see [`shell_form_key`]).
pub fn handle_shell_config_key(key: KeyEvent, state: &AppState) -> (r: Option<AppEvent>)
    ensures
        shell_form_key(*state, key.code, key.modifiers, r),
{
    let code = key.code;
    let mods = key.modifiers;
    if code == KeyCode::Esc {
        return Some(AppEvent::Back);
    }
    if code == KeyCode::Enter {
        return Some(AppEvent::ShellConfigSubmit);
    }
    if code == KeyCode::Tab || code == KeyCode::Down {
        return Some(AppEvent::ShellConfigFocusNext);
    }
    if code == KeyCode::Up {
        return Some(AppEvent::ShellConfigFocusPrev);
    }
    match &state.navigation.shell_config {
        Some(c) => {
            let field = if c.field_focus == 0 {
                Some(ShellConfigField::Shell)
            } else if c.field_focus == 1 {
                Some(ShellConfigField::User)
            } else if c.field_focus == 2 {
                Some(ShellConfigField::Workdir)
            } else {
                None
            };
            match field {
                Some(f) => {
                    let text = match f {
                        ShellConfigField::Shell => &c.shell,
                        ShellConfigField::User => &c.user,
                        ShellConfigField::Workdir => &c.workdir,
                    };
                    match edit_text(code, mods, text) {
                        Some(v) => Some(AppEvent::ShellConfigFieldUpdate(f, v)),
                        None => None,
                    }
                }
                None => None,
            }
        }
        None => None,
    }
}

/// What a key does in a shell session: Esc, Ctrl+D and Ctrl+C close it.
pub open spec fn shell_key(code: KeyCode, mods: KeyModifiers) -> Option<AppEvent> {
    if code == KeyCode::Esc || ((code == KeyCode::Char('d') || code == KeyCode::Char('c')) && mods == control()) {
        Some(AppEvent::CloseShell)
    } else {
        None
    }
}

/// What a key does in a shell session (see [`shell_key`]).
pub fn handle_shell_key(key: KeyEvent) -> (r: Option<AppEvent>)
    ensures
        r == shell_key(key.code, key.modifiers),
{
    if key.code == KeyCode::Esc
        || ((key.code == KeyCode::Char('d') || key.code == KeyCode::Char('c')) && key.modifiers == KeyModifiers::control()) {
        Some(AppEvent::CloseShell)
    } else {
        None
    }
}

} // verus!
