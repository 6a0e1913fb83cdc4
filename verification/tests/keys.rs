use omdocker::config::Keybindings;
use omdocker::event::{AppEvent, ConfirmAction, ContainerSummary, MouseClickKind};
use omdocker::handlers::input::{handle_key, handle_mouse, MouseButton, MouseEvent, MouseEventKind};
use omdocker::handlers::{global_action, handle_filter_input, Action, FilterAction, KeyEvent, KeyEventKind, KeyResult};
use omdocker::keymap::{named_key_exec, parse_keybinding, KeyCode, KeyMap, KeyModifiers};
use omdocker::mode::Mode;
use omdocker::state::{AppState, ExplorerEntry, ExplorerFocus};

fn press(code: KeyCode) -> KeyEvent {
    KeyEvent { code, modifiers: KeyModifiers::none(), kind: KeyEventKind::Press }
}

fn ctrl(c: char) -> KeyEvent {
    KeyEvent { code: KeyCode::Char(c), modifiers: KeyModifiers::control(), kind: KeyEventKind::Press }
}

fn event_of(r: Option<KeyResult>) -> Option<AppEvent> {
    match r {
        Some(KeyResult::Event(e)) => Some(e),
        _ => None,
    }
}

#[test]
fn parse_keybinding_named_keys() {
    let k = parse_keybinding("Esc");
    assert_eq!(k.code, KeyCode::Esc);
    assert_eq!(k.modifiers, KeyModifiers::none());
    assert_eq!(parse_keybinding("  enter ").code, KeyCode::Enter);
    assert_eq!(parse_keybinding("ARROW_UP").code, KeyCode::Up);
    assert_eq!(parse_keybinding("page_down").code, KeyCode::PageDown);
}

#[test]
fn parse_keybinding_space_and_control() {
    assert_eq!(parse_keybinding(" ").code, KeyCode::Char(' '));
    assert_eq!(parse_keybinding("Space").code, KeyCode::Char(' '));
    let k = parse_keybinding("Ctrl+S");
    assert_eq!(k.code, KeyCode::Char('s'));
    assert_eq!(k.modifiers, KeyModifiers::control());
    assert_eq!(parse_keybinding("ctrl_o").code, KeyCode::Char('o'));
}

#[test]
fn parse_keybinding_single_characters() {
    let upper = parse_keybinding("G");
    assert_eq!(upper.code, KeyCode::Char('G'));
    assert_eq!(upper.modifiers, KeyModifiers::shift());
    let lower = parse_keybinding("g");
    assert_eq!(lower.code, KeyCode::Char('g'));
    assert_eq!(lower.modifiers, KeyModifiers::none());
    let unknown = parse_keybinding("F5");
    assert_eq!(unknown.code, KeyCode::Char('F'));
    assert_eq!(unknown.modifiers, KeyModifiers::none());
    assert_eq!(parse_keybinding("").code, KeyCode::Char('j'));
}

#[test]
fn parsed_key_matches_ignores_shift_on_plain_keys() {
    let k = parse_keybinding("G");
    assert!(k.matches(KeyCode::Char('G'), KeyModifiers::none()));
    assert!(k.matches(KeyCode::Char('G'), KeyModifiers::shift()));
    assert!(!k.matches(KeyCode::Char('G'), KeyModifiers::control()));
    assert!(!k.matches(KeyCode::Char('g'), KeyModifiers::shift()));
}

#[test]
fn keymap_from_default_bindings() {
    let km = KeyMap::from_keybindings(&Keybindings::default());
    assert!(km.is_quit(KeyCode::Char('q'), KeyModifiers::none()));
    assert!(km.is_navigate_down(KeyCode::Down, KeyModifiers::none()));
    assert!(km.is_navigate_down(KeyCode::Char('j'), KeyModifiers::none()));
    assert!(km.is_logs_export(KeyCode::Char('s'), KeyModifiers::control()));
    assert!(!km.is_logs_export(KeyCode::Char('s'), KeyModifiers::none()));
}

#[test]
fn help_text_pads_keys_to_one_column() {
    let lines = Keybindings::default().to_help_text();
    assert_eq!(lines[0], "  ");
    assert_eq!(lines[1], format!("{:<18}Quit", "    q "));
    assert_eq!(lines[2], format!("{:<18}Go back / close", "    Esc "));
    assert_eq!(lines[3], "");
    assert_eq!(lines[4], "  GLOBAL NAVIGATION");
    assert_eq!(lines.last().unwrap(), "  Press Esc or ? to close");
}

#[test]
fn help_text_follows_custom_bindings() {
    let mut kb = Keybindings::default();
    kb.quit = vec!["x".to_string(), "q".to_string()];
    let lines = kb.to_help_text();
    assert_eq!(lines[1], format!("{:<18}Quit", "    x "));
}

#[test]
fn global_action_table() {
    assert_eq!(global_action(KeyCode::Char('q')), Some(Action::Quit));
    assert_eq!(global_action(KeyCode::Char('?')), Some(Action::ShowHelp));
    assert_eq!(global_action(KeyCode::Esc), Some(Action::Back));
    assert_eq!(global_action(KeyCode::Enter), None);
}

#[test]
fn filter_input_edits_and_moves() {
    let key = |c| KeyEvent { code: c, modifiers: KeyModifiers::none(), kind: KeyEventKind::Press };
    assert!(matches!(handle_filter_input(key(KeyCode::Backspace), "ab", 1, 3), Some(FilterAction::Update(q)) if q == "a"));
    assert!(matches!(handle_filter_input(key(KeyCode::Char('c')), "ab", 1, 3), Some(FilterAction::Update(q)) if q == "abc"));
    assert!(matches!(handle_filter_input(key(KeyCode::Esc), "ab", 1, 3), Some(FilterAction::Clear)));
    assert!(matches!(handle_filter_input(key(KeyCode::Enter), "ab", 1, 3), Some(FilterAction::Submit(None))));
    assert!(matches!(handle_filter_input(key(KeyCode::Down), "ab", 1, 3), Some(FilterAction::Submit(Some(2)))));
    assert!(matches!(handle_filter_input(key(KeyCode::Down), "ab", 2, 3), Some(FilterAction::Submit(Some(2)))));
    assert!(matches!(handle_filter_input(key(KeyCode::Up), "ab", 0, 3), Some(FilterAction::Submit(Some(0)))));
    assert!(handle_filter_input(key(KeyCode::F(1)), "ab", 0, 3).is_none());
}

#[test]
fn releases_are_ignored() {
    let state = AppState::new();
    let key = KeyEvent { code: KeyCode::Char('q'), modifiers: KeyModifiers::none(), kind: KeyEventKind::Release };
    assert!(handle_key(key, &state).is_none());
}

#[test]
fn quit_help_and_update_keys() {
    let state = AppState::new();
    assert!(matches!(event_of(handle_key(press(KeyCode::Char('q')), &state)), Some(AppEvent::Quit)));
    assert!(matches!(event_of(handle_key(press(KeyCode::Char('?')), &state)), Some(AppEvent::Navigate(Mode::Help))));
    assert!(matches!(event_of(handle_key(press(KeyCode::Char('U')), &state)), Some(AppEvent::CheckUpdate)));
    assert!(matches!(event_of(handle_key(press(KeyCode::Char('m')), &state)), Some(AppEvent::ToggleMouse)));
}

#[test]
fn back_on_the_only_view_does_nothing() {
    let state = AppState::new();
    assert!(handle_key(press(KeyCode::Esc), &state).is_none());
}

#[test]
fn tab_and_backtab_cycle_the_tabs() {
    let mut state = AppState::new();
    assert!(matches!(event_of(handle_key(press(KeyCode::Tab), &state)), Some(AppEvent::Navigate(Mode::Images))));
    assert!(matches!(event_of(handle_key(press(KeyCode::BackTab), &state)), Some(AppEvent::Navigate(Mode::Help))));
    state.selected_tab = 6;
    assert!(matches!(event_of(handle_key(press(KeyCode::Tab), &state)), Some(AppEvent::Navigate(Mode::Containers))));
}

#[test]
fn letters_jump_between_base_views() {
    let state = AppState::new();
    assert!(matches!(event_of(handle_key(press(KeyCode::Char('i')), &state)), Some(AppEvent::Navigate(Mode::Images))));
    assert!(matches!(event_of(handle_key(press(KeyCode::Char('%')), &state)), Some(AppEvent::Navigate(Mode::Statistics))));
    assert!(matches!(event_of(handle_key(press(KeyCode::Char('e')), &state)), Some(AppEvent::Navigate(Mode::Events))));
}

#[test]
fn pinned_error_swallows_keys() {
    let mut state = AppState::new();
    state.error_persistent = true;
    assert!(matches!(event_of(handle_key(press(KeyCode::Char('q')), &state)), Some(AppEvent::Info(m)) if m.is_empty()));
}

#[test]
fn filter_input_turns_shortcuts_off() {
    let mut state = AppState::new();
    state.containers.filter_active = true;
    let r = event_of(handle_key(press(KeyCode::Char('q')), &state));
    assert!(!matches!(r, Some(AppEvent::Quit)));
}

fn container(id: &str, name: &str) -> ContainerSummary {
    ContainerSummary {
        id: id.to_string(),
        name: name.to_string(),
        image: "nginx".to_string(),
        state: "running".to_string(),
        status: "Up".to_string(),
        ports: String::new(),
        project: String::new(),
        health: String::new(),
    }
}

#[test]
fn ctrl_y_copies_the_selected_container_id() {
    let mut state = AppState::new();
    state.containers.items = vec![container("abc123", "web"), container("def456", "db")];
    state.containers.filtered = vec![1, 0];
    state.containers.selected = 0;
    match handle_key(ctrl('y'), &state) {
        Some(KeyResult::Copy { value, copied }) => {
            assert_eq!(value, "def456");
            assert_eq!(copied, "Copied to clipboard");
        }
        _ => panic!("expected a copy"),
    }
}

#[test]
fn ctrl_o_opens_the_column_picker() {
    let state = AppState::new();
    assert!(matches!(event_of(handle_key(ctrl('o'), &state)), Some(AppEvent::ToggleColumnPicker)));
}

fn file(name: &str, is_dir: bool) -> ExplorerEntry {
    ExplorerEntry { name: name.to_string(), is_dir, size: 0, modified: String::new(), permissions: String::new() }
}

fn explorer_state() -> AppState {
    let mut state = AppState::new();
    state.explorer.focus = ExplorerFocus::Left;
    state.explorer.host.path = "/home".to_string();
    state.explorer.host.items = vec![file("docs", true), file("a.txt", false)];
    state
}

#[test]
fn explorer_enter_opens_directories() {
    let mut state = explorer_state();
    state.explorer.host.selected = 1;
    let r = omdocker::handlers::explorer::handle_key(press(KeyCode::Enter), &state);
    assert!(matches!(r, Some(AppEvent::ExplorerHostEnterDir(n)) if n == "docs"));
    state.explorer.host.selected = 0;
    let r = omdocker::handlers::explorer::handle_key(press(KeyCode::Enter), &state);
    assert!(matches!(r, Some(AppEvent::ExplorerHostGoUp)));
    state.explorer.host.selected = 2;
    assert!(omdocker::handlers::explorer::handle_key(press(KeyCode::Enter), &state).is_none());
}

#[test]
fn explorer_delete_asks_first() {
    let mut state = explorer_state();
    state.explorer.host.selected = 2;
    let r = omdocker::handlers::explorer::handle_key(press(KeyCode::Char('d')), &state);
    match r {
        Some(AppEvent::ShowConfirmDialog(msg, ConfirmAction::DeleteHostFile(path))) => {
            assert_eq!(msg, "Delete '/home/a.txt'?");
            assert_eq!(path, "/home/a.txt");
        }
        _ => panic!("expected a confirmation"),
    }
    state.explorer.focus = ExplorerFocus::Right;
    state.explorer.container_id = "c1".to_string();
    state.explorer.container.path = "/".to_string();
    state.explorer.container.items = vec![file("etc", true)];
    state.explorer.container.selected = 0;
    let r = omdocker::handlers::explorer::handle_key(press(KeyCode::Char('d')), &state);
    match r {
        Some(AppEvent::ShowConfirmDialog(msg, ConfirmAction::DeleteContainerFile(id, path))) => {
            assert_eq!(msg, "Delete '/etc'?");
            assert_eq!(id, "c1");
            assert_eq!(path, "/etc");
        }
        _ => panic!("expected a confirmation"),
    }
}

#[test]
fn explorer_cursor_stays_in_range() {
    let mut state = explorer_state();
    state.explorer.host.selected = 2;
    let r = omdocker::handlers::explorer::handle_key(press(KeyCode::Down), &state);
    assert!(matches!(r, Some(AppEvent::ExplorerHostSelect(2))));
    let r = omdocker::handlers::explorer::handle_key(press(KeyCode::PageUp), &state);
    assert!(matches!(r, Some(AppEvent::ExplorerHostSelect(0))));
    let r = omdocker::handlers::explorer::handle_key(press(KeyCode::Char('G')), &state);
    assert!(matches!(r, Some(AppEvent::ExplorerHostSelect(2))));
}

#[test]
fn explorer_filter_input_takes_keys() {
    let mut state = explorer_state();
    state.explorer.host.filter_active = true;
    state.explorer.host.filter = "do".to_string();
    let r = omdocker::handlers::explorer::handle_key(press(KeyCode::Char('c')), &state);
    assert!(matches!(r, Some(AppEvent::ExplorerFilter(q)) if q == "doc"));
    let r = omdocker::handlers::explorer::handle_key(press(KeyCode::Esc), &state);
    assert!(matches!(r, Some(AppEvent::ExplorerFilter(q)) if q.is_empty()));
    let r = omdocker::handlers::explorer::handle_key(press(KeyCode::Enter), &state);
    assert!(matches!(r, Some(AppEvent::ExplorerFilterSubmit)));
}

#[test]
fn mouse_events_become_clicks() {
    let ev = MouseEvent { kind: MouseEventKind::Down(MouseButton::Left), column: 3, row: 7, modifiers: KeyModifiers::none() };
    assert!(matches!(handle_mouse(ev), Some(AppEvent::MouseClick { row: 7, col: 3, kind: MouseClickKind::Left })));
    let ev = MouseEvent { kind: MouseEventKind::ScrollUp, column: 0, row: 1, modifiers: KeyModifiers::none() };
    assert!(matches!(handle_mouse(ev), Some(AppEvent::MouseClick { kind: MouseClickKind::ScrollUp, .. })));
    let ev = MouseEvent { kind: MouseEventKind::Down(MouseButton::Right), column: 0, row: 1, modifiers: KeyModifiers::none() };
    assert!(handle_mouse(ev).is_none());
}

fn shifted(c: char) -> KeyEvent {
    KeyEvent { code: KeyCode::Char(c), modifiers: KeyModifiers::shift(), kind: KeyEventKind::Press }
}

#[test]
fn details_jump_keys_go_to_top_and_bottom() {
    let mut state = AppState::new();
    state.navigation.details = Some(omdocker::state::DetailsState {
        id: "abc".to_string(),
        container_id: "abc".to_string(),
        json: None,
        scroll_offset: 3,
    });
    let top = omdocker::handlers::views::handle_details_key(press(KeyCode::Char('g')), &state);
    assert!(matches!(top, Some(AppEvent::ScrollDetails(-10000))));
    let bottom = omdocker::handlers::views::handle_details_key(shifted('G'), &state);
    assert!(matches!(bottom, Some(AppEvent::ScrollDetails(10000))));
}

#[test]
fn details_start_stop_key_follows_the_binding() {
    let mut state = AppState::new();
    state.navigation.details = Some(omdocker::state::DetailsState {
        id: "abc123".to_string(),
        container_id: "abc123".to_string(),
        json: None,
        scroll_offset: 0,
    });
    state.containers.items = vec![container("abc123", "web")];
    let r = omdocker::handlers::views::handle_details_key(press(KeyCode::Char('t')), &state);
    assert!(matches!(r, Some(AppEvent::StopContainer(id)) if id == "abc123"));
    assert!(omdocker::handlers::views::handle_details_key(shifted('S'), &state).is_none());
}

#[test]
fn help_jump_keys_go_to_top_and_bottom() {
    let state = AppState::new();
    let top = omdocker::handlers::views::handle_help_key(press(KeyCode::Char('g')), &state);
    assert!(matches!(top, Some(AppEvent::ScrollHelp(-10000))));
    let bottom = omdocker::handlers::views::handle_help_key(shifted('G'), &state);
    assert!(matches!(bottom, Some(AppEvent::ScrollHelp(10000))));
}

#[test]
fn named_keys_of_lowercased_strings() {
    let k = named_key_exec("ctrl_y").unwrap();
    assert_eq!(k.code, KeyCode::Char('y'));
    assert_eq!(k.modifiers, KeyModifiers::control());
    assert_eq!(named_key_exec("arrow_left").unwrap().code, KeyCode::Left);
    assert!(named_key_exec("Enter").is_none());
    assert!(named_key_exec("g").is_none());
}
