use omdocker::event::{AppEvent, Command, ConfirmAction, ContainerSummary, LogEntry, StatEntry};
use omdocker::mode::{Mode, ModeStack, MAX_DEPTH};
use omdocker::reducer::reduce_at;
use omdocker::reducers::image::validate_run;
use omdocker::reducers::statistics::{cycle_sort, sort_stats};
use omdocker::state::{AppState, StatSort};

fn container(id: &str, name: &str, project: &str) -> ContainerSummary {
    ContainerSummary {
        id: id.to_string(),
        name: name.to_string(),
        image: "nginx".to_string(),
        state: "running".to_string(),
        status: "Up 2 minutes".to_string(),
        ports: String::new(),
        project: project.to_string(),
        health: String::new(),
    }
}

fn stat(name: &str, cpu: f64, mem: u64) -> StatEntry {
    StatEntry {
        container_id: name.to_string(),
        name: name.to_string(),
        cpu_percent_bits: cpu.to_bits(),
        memory_usage: mem,
        memory_limit: 0,
        memory_percent_bits: 0f64.to_bits(),
        net_rx: 0,
        net_tx: 0,
        block_read: 0,
        block_write: 0,
        pids: 0,
    }
}

#[test]
fn mode_stack_push_back_and_depth() {
    let mut s = ModeStack::new();
    assert_eq!(s.len(), 1);
    assert_eq!(*s.current(), Mode::Containers);
    s.push(Mode::Images);
    assert_eq!(*s.current(), Mode::Images);
    assert_eq!(s.back(), Some(Mode::Images));
    assert_eq!(*s.current(), Mode::Containers);
    assert_eq!(s.back(), None);
    assert_eq!(s.len(), 1);
    for _ in 0..(MAX_DEPTH + 3) {
        s.push(Mode::Help);
    }
    assert_eq!(s.len(), MAX_DEPTH);
    s.replace_current(Mode::Events);
    assert_eq!(*s.current(), Mode::Events);
    assert_eq!(s.len(), MAX_DEPTH);
}

#[test]
fn navigate_between_base_views_replaces_the_view() {
    let mut state = AppState::new();
    let cmds = reduce_at(&mut state, AppEvent::Navigate(Mode::Images), 0);
    assert!(cmds.is_empty());
    assert_eq!(*state.navigation.mode_stack.current(), Mode::Images);
    assert_eq!(state.navigation.mode_stack.len(), 1);
    assert_eq!(state.selected_tab, 1);
}

#[test]
fn navigate_to_a_sub_view_and_back() {
    let mut state = AppState::new();
    reduce_at(&mut state, AppEvent::Navigate(Mode::ContainerDetails("c1".to_string())), 0);
    assert_eq!(state.navigation.mode_stack.len(), 2);
    reduce_at(&mut state, AppEvent::Back, 0);
    assert_eq!(state.navigation.mode_stack.len(), 1);
    assert_eq!(*state.navigation.mode_stack.current(), Mode::Containers);
    assert_eq!(state.selected_tab, 0);
}

#[test]
fn opening_logs_fetches_them() {
    let mut state = AppState::new();
    let cmds = reduce_at(&mut state, AppEvent::Navigate(Mode::Logs("c1".to_string())), 0);
    assert!(cmds.contains(&Command::FetchLogs("c1".to_string())));
    assert_eq!(*state.navigation.mode_stack.current(), Mode::Logs("c1".to_string()));
    assert!(state.navigation.logs.is_some());
}

#[test]
fn export_without_lines_reports_an_error() {
    let mut state = AppState::new();
    reduce_at(&mut state, AppEvent::Navigate(Mode::Logs("c1".to_string())), 0);
    let cmds = reduce_at(&mut state, AppEvent::ExportLogs("c1".to_string()), 0);
    assert!(cmds.is_empty());
    assert_eq!(state.error.as_deref(), Some("No logs to export"));
}

#[test]
fn export_with_lines_writes_them() {
    let mut state = AppState::new();
    reduce_at(&mut state, AppEvent::Navigate(Mode::Logs("c1".to_string())), 0);
    let lines = vec![
        LogEntry { timestamp: "t1".to_string(), message: "hello".to_string() },
        LogEntry { timestamp: "t2".to_string(), message: "world".to_string() },
    ];
    reduce_at(&mut state, AppEvent::LogLines("c1".to_string(), lines), 0);
    let cmds = reduce_at(&mut state, AppEvent::ExportLogs("c1".to_string()), 0);
    assert_eq!(cmds.len(), 1);
    match &cmds[0] {
        Command::ExportLogs(_, out) => assert_eq!(out, &vec!["hello".to_string(), "world".to_string()]),
        other => panic!("unexpected {:?}", other),
    }
}

#[test]
fn quit_sets_the_flag() {
    let mut state = AppState::new();
    let cmds = reduce_at(&mut state, AppEvent::Quit, 0);
    assert!(cmds.is_empty());
    assert!(state.quit);
}

#[test]
fn error_pins_and_empty_info_clears() {
    let mut state = AppState::new();
    reduce_at(&mut state, AppEvent::Error("boom".to_string()), 0);
    assert!(state.error_persistent);
    assert_eq!(state.error.as_deref(), Some("boom"));
    reduce_at(&mut state, AppEvent::Info(String::new()), 0);
    assert!(!state.error_persistent);
    assert!(state.error.is_none());
}

#[test]
fn toggle_mouse_asks_for_capture() {
    let mut state = AppState::new();
    let cmds = reduce_at(&mut state, AppEvent::ToggleMouse, 0);
    assert!(state.mouse_enabled);
    assert_eq!(cmds, vec![Command::ToggleMouseCapture]);
}

#[test]
fn check_update_without_offer_checks() {
    let mut state = AppState::new();
    let cmds = reduce_at(&mut state, AppEvent::CheckUpdate, 0);
    assert_eq!(cmds, vec![Command::CheckUpdate]);
    assert_eq!(state.error.as_deref(), Some("Checking for updates..."));
}

#[test]
fn check_update_with_offer_downloads() {
    let mut state = AppState::new();
    reduce_at(&mut state, AppEvent::UpdateAvailable("1.2.0".to_string(), "https://x/y.tar.gz".to_string()), 0);
    let cmds = reduce_at(&mut state, AppEvent::CheckUpdate, 0);
    assert_eq!(
        cmds,
        vec![Command::DownloadUpdate { version: "1.2.0".to_string(), download_url: "https://x/y.tar.gz".to_string() }]
    );
    assert!(state.update_available.is_none());
}

#[test]
fn containers_are_grouped_by_project() {
    let mut state = AppState::new();
    let list = vec![
        container("a0", "web-1", "web"),
        container("a1", "db", ""),
        container("a2", "api", "api"),
        container("a3", "web-2", "web"),
    ];
    reduce_at(&mut state, AppEvent::ContainersUpdated(list), 5);
    assert!(!state.containers.loading);
    assert!(state.container_extra.docker_connected);
    assert_eq!(state.containers.filtered, vec![1, 2, 0, 3]);
}

#[test]
fn container_filter_is_case_insensitive() {
    let mut state = AppState::new();
    let list = vec![container("a0", "web-1", ""), container("a1", "db", ""), container("a2", "Web-2", "")];
    reduce_at(&mut state, AppEvent::ContainersUpdated(list), 5);
    reduce_at(&mut state, AppEvent::FilterContainers("WEB".to_string()), 5);
    assert_eq!(state.containers.filtered, vec![0, 2]);
    reduce_at(&mut state, AppEvent::FilterContainers(String::new()), 5);
    assert_eq!(state.containers.filtered, vec![0, 1, 2]);
    assert!(!state.containers.filter_active);
}

#[test]
fn confirm_delete_container_sends_the_command() {
    let mut state = AppState::new();
    reduce_at(&mut state, AppEvent::ShowConfirmDialog("Delete?".to_string(), ConfirmAction::DeleteContainer("c9".to_string())), 0);
    assert_eq!(state.navigation.mode_stack.len(), 2);
    let cmds = reduce_at(&mut state, AppEvent::ConfirmYes, 0);
    assert!(cmds.contains(&Command::DeleteContainer("c9".to_string())));
    assert_eq!(state.navigation.mode_stack.len(), 1);
}

#[test]
fn declining_closes_the_dialog_only() {
    let mut state = AppState::new();
    reduce_at(&mut state, AppEvent::ShowConfirmDialog("Delete?".to_string(), ConfirmAction::DeleteContainer("c9".to_string())), 0);
    let cmds = reduce_at(&mut state, AppEvent::ConfirmNo, 0);
    assert!(cmds.is_empty());
    assert_eq!(state.navigation.mode_stack.len(), 1);
}

#[test]
fn statistics_are_sorted_by_cpu_descending_by_default() {
    let mut state = AppState::new();
    let list = vec![stat("a", 1.5, 10), stat("b", 30.0, 5), stat("c", 7.25, 7)];
    reduce_at(&mut state, AppEvent::StatisticsUpdated(list), 9);
    let names: Vec<&str> = state.statistics.items.iter().map(|e| e.name.as_str()).collect();
    assert_eq!(names, vec!["b", "c", "a"]);
    assert_eq!(state.statistics.last_updated, Some(9));
    assert!(!state.statistics.loading);
}

#[test]
fn sort_is_stable_and_keeps_every_entry() {
    let list = vec![stat("x", 1.0, 5), stat("y", 2.0, 1), stat("z", 3.0, 5), stat("w", 4.0, 1)];
    let sorted = sort_stats(&list, StatSort::Memory, true);
    let names: Vec<&str> = sorted.iter().map(|e| e.name.as_str()).collect();
    assert_eq!(names, vec!["y", "w", "x", "z"]);
    let by_name = sort_stats(&vec![stat("beta", 0.0, 0), stat("Alpha", 0.0, 0), stat("gamma", 0.0, 0)], StatSort::Name, true);
    let names: Vec<&str> = by_name.iter().map(|e| e.name.as_str()).collect();
    assert_eq!(names, vec!["Alpha", "beta", "gamma"]);
}

#[test]
fn cpu_sorts_by_numeric_value() {
    let list = vec![stat("a", 5.0, 0), stat("b", -1.0, 0), stat("c", 0.5, 0), stat("d", -2.5, 0)];
    let up = sort_stats(&list, StatSort::Cpu, true);
    let names: Vec<&str> = up.iter().map(|e| e.name.as_str()).collect();
    assert_eq!(names, vec!["d", "b", "c", "a"]);
    let down = sort_stats(&list, StatSort::Cpu, false);
    let names: Vec<&str> = down.iter().map(|e| e.name.as_str()).collect();
    assert_eq!(names, vec!["a", "c", "b", "d"]);
    let zeros = sort_stats(&vec![stat("neg", -0.0, 0), stat("pos", 0.0, 0)], StatSort::Cpu, true);
    let names: Vec<&str> = zeros.iter().map(|e| e.name.as_str()).collect();
    assert_eq!(names, vec!["neg", "pos"]);
    let zeros = sort_stats(&vec![stat("pos", 0.0, 0), stat("neg", -0.0, 0)], StatSort::Cpu, true);
    let names: Vec<&str> = zeros.iter().map(|e| e.name.as_str()).collect();
    assert_eq!(names, vec!["pos", "neg"]);
}

#[test]
fn fresh_statistics_cycle_from_cpu() {
    let mut s = AppState::new();
    assert_eq!(s.statistics.sort_by, StatSort::Cpu);
    assert!(reduce_at(&mut s, AppEvent::CycleSortStat(-1), 0).is_empty());
    assert_eq!(s.statistics.sort_by, StatSort::Name);
    assert!(reduce_at(&mut s, AppEvent::CycleSortStat(-1), 0).is_empty());
    assert_eq!(s.statistics.sort_by, StatSort::Pids);
    for _ in 0..8 {
        assert!(reduce_at(&mut s, AppEvent::CycleSortStat(1), 0).is_empty());
    }
    assert_eq!(s.statistics.sort_by, StatSort::Pids);
}

#[test]
fn sort_columns_cycle_both_ways() {
    assert_eq!(cycle_sort(StatSort::Name, 1), StatSort::Cpu);
    assert_eq!(cycle_sort(StatSort::Name, -1), StatSort::Pids);
    assert_eq!(cycle_sort(StatSort::Pids, 1), StatSort::Name);
}

#[test]
fn run_form_checks_ports_and_volumes() {
    assert!(validate_run(&"8080:80\n443\n  \n".to_string(), &"/a:/b".to_string()).is_empty());
    let errs = validate_run(&"a:b:c:d".to_string(), &String::new());
    assert_eq!(errs, vec![(5, "Invalid port 'a:b:c:d': use HOST:CONTAINER or CONTAINER".to_string())]);
    let errs = validate_run(&"8080:http".to_string(), &String::new());
    assert_eq!(errs, vec![(5, "Invalid container port 'http' in '8080:http': must be a number".to_string())]);
    let errs = validate_run(&String::new(), &"data".to_string());
    assert_eq!(errs, vec![(6, "Invalid volume 'data': must be HOST:CONTAINER[:ro|:rw]".to_string())]);
    let errs = validate_run(&"99999".to_string(), &" x \n/a:/b".to_string());
    assert_eq!(errs.len(), 2);
    assert_eq!(errs[0].0, 5);
    assert_eq!(errs[1], (6, "Invalid volume 'x': must be HOST:CONTAINER[:ro|:rw]".to_string()));
}

#[test]
fn entering_a_container_directory_and_going_up_returns() {
    let mut state = AppState::new();
    state.explorer.container_id = "c1".to_string();
    state.explorer.container.path = "/a/".to_string();
    let cmds = reduce_at(&mut state, AppEvent::ExplorerContainerEnterDir("b".to_string()), 0);
    assert_eq!(state.explorer.container.path, "/a/b/");
    assert_eq!(cmds, vec![Command::ListContainerDir("c1".to_string(), "/a/b/".to_string())]);
    reduce_at(&mut state, AppEvent::ExplorerContainerGoUp, 0);
    assert_eq!(state.explorer.container.path, "/a/");
}

#[test]
fn entering_a_host_directory_and_going_up_returns() {
    let mut state = AppState::new();
    state.explorer.host.path = "/home".to_string();
    let cmds = reduce_at(&mut state, AppEvent::ExplorerHostEnterDir("docs".to_string()), 0);
    assert_eq!(state.explorer.host.path, "/home/docs");
    assert_eq!(cmds, vec![Command::ListHostDir("/home/docs".to_string())]);
    let cmds = reduce_at(&mut state, AppEvent::ExplorerHostGoUp, 0);
    assert_eq!(state.explorer.host.path, "/home");
    assert_eq!(state.explorer.host.selected, 0);
    assert_eq!(cmds, vec![Command::ListHostDir("/home".to_string())]);
    state.explorer.host.path = "/".to_string();
    reduce_at(&mut state, AppEvent::ExplorerHostEnterDir("tmp".to_string()), 0);
    assert_eq!(state.explorer.host.path, "/tmp");
    let cmds = reduce_at(&mut state, AppEvent::ExplorerHostGoUp, 0);
    assert_eq!(state.explorer.host.path, "/");
    assert_eq!(cmds, vec![Command::ListHostDir("/".to_string())]);
}

#[test]
fn log_buffer_keeps_its_oldest_lines_up_to_the_bound() {
    let mut state = AppState::new();
    reduce_at(&mut state, AppEvent::Navigate(Mode::Logs("c1".to_string())), 0);
    let lines: Vec<LogEntry> = (0..10005)
        .map(|i| LogEntry { timestamp: String::new(), message: format!("line {}", i) })
        .collect();
    reduce_at(&mut state, AppEvent::LogLines("c1".to_string(), lines), 0);
    let log = state.navigation.logs.as_ref().unwrap();
    assert_eq!(log.buffer.len(), log.max_lines);
    assert_eq!(log.buffer[0].message, "line 0");
    assert_eq!(log.buffer[log.max_lines - 1].message, format!("line {}", log.max_lines - 1));
}

#[test]
fn rows_keep_pointing_at_items_when_the_list_shrinks() {
    let mut state = AppState::new();
    let many = vec![container("a0", "x", ""), container("a1", "y", ""), container("a2", "z", "")];
    reduce_at(&mut state, AppEvent::ContainersUpdated(many), 1);
    reduce_at(&mut state, AppEvent::SelectContainer(2), 1);
    assert_eq!(state.containers.selected, 2);
    reduce_at(&mut state, AppEvent::ContainersUpdated(vec![container("a9", "w", "")]), 2);
    assert!(state.containers.filtered.iter().all(|&i| i < state.containers.items.len()));
    assert!(state.containers.selected < state.containers.filtered.len());
}
