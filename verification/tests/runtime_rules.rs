use omdocker::event::{AppEvent, Command, ContainerSummary};
use omdocker::listing::{helper_bind, helper_plan, HelperPlan};
use omdocker::poller::poll_step;
use omdocker::reducer::{note_save_failure, split_save};
use omdocker::reducers::navigation::volume_explorer_key;
use omdocker::state::AppState;

fn container(id: &str) -> ContainerSummary {
    ContainerSummary {
        id: id.to_string(),
        name: "web".to_string(),
        image: "nginx".to_string(),
        state: "running".to_string(),
        status: "Up".to_string(),
        ports: String::new(),
        project: String::new(),
        health: String::new(),
    }
}

#[test]
fn poller_resets_on_success() {
    let (n, event, stop) = poll_step(2, Ok(vec![container("a")]));
    assert_eq!(n, 0);
    assert!(!stop);
    assert!(matches!(event, AppEvent::ContainersUpdated(v) if v.len() == 1 && v[0].id == "a"));
}

#[test]
fn poller_reports_failures_and_gives_up_on_the_third() {
    let (n, event, stop) = poll_step(0, Err("refused".to_string()));
    assert_eq!(n, 1);
    assert!(!stop);
    assert!(matches!(event, AppEvent::Info(m) if m == "Docker: refused"));
    let (n, _, stop) = poll_step(n, Err("refused".to_string()));
    assert_eq!(n, 2);
    assert!(!stop);
    let (n, event, stop) = poll_step(n, Err("refused".to_string()));
    assert_eq!(n, 3);
    assert!(stop);
    assert!(matches!(event, AppEvent::DockerConnectionLost(m) if m == "Docker connection lost: refused"));
}

#[test]
fn volume_helper_is_reused_or_created() {
    let running = helper_plan(Some((Some("h1".to_string()), Some("running".to_string()))));
    assert_eq!(running, HelperPlan::Reuse { id: "h1".to_string(), start: false });
    let stopped = helper_plan(Some((Some("h1".to_string()), Some("exited".to_string()))));
    assert_eq!(stopped, HelperPlan::Reuse { id: "h1".to_string(), start: true });
    assert_eq!(helper_plan(Some((None, Some("running".to_string())))), HelperPlan::Create);
    assert_eq!(helper_plan(None), HelperPlan::Create);
    assert_eq!(helper_bind("data"), "data:/volume_data:z");
}

#[test]
fn save_requests_are_run_once_after_the_others() {
    let (rest, save) = split_save(vec![Command::SaveConfig, Command::CheckUpdate, Command::SaveConfig, Command::ToggleMouseCapture]);
    assert!(save);
    assert_eq!(rest, vec![Command::CheckUpdate, Command::ToggleMouseCapture]);
    let (rest, save) = split_save(vec![Command::CheckUpdate]);
    assert!(!save);
    assert_eq!(rest, vec![Command::CheckUpdate]);
}

#[test]
fn failed_save_is_shown_for_five_ticks() {
    let mut state = AppState::new();
    note_save_failure(&mut state, "disk full");
    assert_eq!(state.error.as_deref(), Some("Failed to save config: disk full"));
    assert_eq!(state.error_timer, 5);
    assert!(!state.error_persistent);
}

#[test]
fn volume_explorer_id_names_the_volume() {
    assert_eq!(volume_explorer_key("data"), "__volume__:data");
}
