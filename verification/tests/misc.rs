use omdocker::ansi::Color;
use omdocker::collections::StringSet;
use omdocker::details::{build_text, ContainerInspect, DetailLine};
use omdocker::config::{OmdockerConfig, PollingIntervals};
use omdocker::event::{AppEvent, Command};
use omdocker::mode::{mode_to_tab, tab_to_mode, Mode};
use omdocker::reducer::reduce_at;
use omdocker::runform::run_form_lines;
use omdocker::search::Fuzzy;
use omdocker::state::{AppState, ContainerStateExtra, DetailsState, StatSort};
use omdocker::ui::{shortcuts, sort_label, spinner_char, staleness_at};
use omdocker::update::{archive_ext, no_release, repo, target_triple, update_from_release, Release, ReleaseAsset};

#[test]
fn fuzzy_scores_subsequences_only() {
    let f = Fuzzy::new();
    assert!(f.score("abc", "a_b_c").is_some());
    assert!(f.score("web", "my-web-server").unwrap() > 0);
    assert!(f.score("xyz", "abc").is_none());
}

#[test]
fn repository_path() {
    assert_eq!(repo("https://github.com/owner/omdocker"), "owner/omdocker");
    assert_eq!(repo("https://gitlab.com/owner/omdocker"), "https://gitlab.com/owner/omdocker");
}

#[test]
fn platform_names() {
    assert_eq!(archive_ext("windows"), "zip");
    assert_eq!(archive_ext("linux"), "tar.gz");
    assert_eq!(target_triple("x86_64", "linux", "gnu"), "x86_64-unknown-linux-gnu");
    assert_eq!(target_triple("arm", "linux", "gnu"), "armv7-unknown-linux-gnueabihf");
    assert_eq!(target_triple("aarch64", "macos", ""), "aarch64-apple-darwin");
    assert_eq!(target_triple("riscv64", "linux", "gnu"), "unknown");
}

#[test]
fn no_release_statuses() {
    assert!(no_release(204));
    assert!(no_release(404));
    assert!(!no_release(200));
}

fn asset(name: Option<&str>, url: Option<&str>) -> ReleaseAsset {
    ReleaseAsset { name: name.map(|s| s.to_string()), browser_download_url: url.map(|s| s.to_string()) }
}

#[test]
fn newer_release_with_matching_archive_is_offered() {
    let release = Release {
        tag_name: Some("v1.2.0".to_string()),
        assets: Some(vec![
            asset(Some("omdocker_1.2.0_x86_64-unknown-linux-gnu.zip"), Some("wrong")),
            asset(Some("omdocker_1.2.0_x86_64-unknown-linux-gnu.tar.gz"), None),
            asset(Some("omdocker_1.2.0_x86_64-unknown-linux-gnu.tar.gz"), Some("https://dl/a.tar.gz")),
        ]),
    };
    let r = update_from_release(&release, "1.1.9", "x86_64-unknown-linux-gnu", "tar.gz");
    assert_eq!(r, Some(("1.2.0".to_string(), "https://dl/a.tar.gz".to_string())));
}

#[test]
fn same_or_older_release_is_not_offered() {
    let release = Release {
        tag_name: Some("v1.2.0".to_string()),
        assets: Some(vec![asset(Some("omdocker_1.2.0_t.tar.gz"), Some("u"))]),
    };
    assert_eq!(update_from_release(&release, "1.2.0", "t", "tar.gz"), None);
    assert_eq!(update_from_release(&release, "1.3.0", "t", "tar.gz"), None);
    assert_eq!(update_from_release(&release, "1.1.0", "t", "tar.gz"), Some(("1.2.0".to_string(), "u".to_string())));
    let untagged = Release { tag_name: None, assets: None };
    assert_eq!(update_from_release(&untagged, "0.0.0", "t", "tar.gz"), None);
    let no_assets = Release { tag_name: Some("9.0.0".to_string()), assets: None };
    assert_eq!(update_from_release(&no_assets, "1.0.0", "t", "tar.gz"), None);
}

#[test]
fn spinner_turns_every_other_tick() {
    assert_eq!(spinner_char(0), '⠋');
    assert_eq!(spinner_char(1), '⠋');
    assert_eq!(spinner_char(2), '⠙');
    assert_eq!(spinner_char(16), '⠏');
    assert_eq!(spinner_char(18), '⠋');
}

#[test]
fn sort_label_names_column_and_direction() {
    assert_eq!(sort_label(&StatSort::Cpu, false), " (sorted by CPU % \u{25be})");
    assert_eq!(sort_label(&StatSort::Name, true), " (sorted by Name \u{25b4})");
}

#[test]
fn status_bar_hints() {
    assert_eq!(shortcuts(&Mode::ConfirmDialog { prompt: String::new(), action: omdocker::event::ConfirmAction::RemoveDanglingImages }), " y:yes  n:no  Enter:yes  Esc:no ");
    assert_eq!(shortcuts(&Mode::Statistics), " ←/→:sort field  ^T:direction  Esc:back ");
}

#[test]
fn freshness_indicator() {
    assert_eq!(staleness_at(None, 100, 1000), ('?', Color::DarkGray));
    assert_eq!(staleness_at(Some(0), 1999, 1000), ('●', Color::Green));
    assert_eq!(staleness_at(Some(0), 2000, 1000), ('○', Color::Yellow));
    assert_eq!(staleness_at(Some(0), 4999, 1000), ('○', Color::Yellow));
    assert_eq!(staleness_at(Some(0), 5000, 1000), ('◌', Color::Red));
    assert_eq!(staleness_at(Some(500), 100, 1000), ('●', Color::Green));
}

#[test]
fn polling_intervals_are_clamped() {
    let mut p = PollingIntervals { containers_ms: 10, statistics_ms: 2000, images_ms: 1_000_000, networks_ms: 500, volumes_ms: 60000 };
    p.clamp();
    assert_eq!(p.containers_ms, 500);
    assert_eq!(p.statistics_ms, 2000);
    assert_eq!(p.images_ms, 60000);
    assert_eq!(p.networks_ms, 500);
    assert_eq!(p.volumes_ms, 60000);
    let before = (p.containers_ms, p.images_ms);
    p.clamp();
    assert_eq!((p.containers_ms, p.images_ms), before);
}

#[test]
fn default_config_intervals() {
    let c = OmdockerConfig::default();
    assert_eq!(c.polling.containers_ms, 2000);
    assert_eq!(c.polling.images_ms, 10000);
}

#[test]
fn tabs_and_modes_round_trip() {
    for tab in 0..7 {
        assert_eq!(mode_to_tab(&tab_to_mode(tab)), Some(tab));
    }
    assert_eq!(tab_to_mode(99), Mode::Containers);
    assert_eq!(mode_to_tab(&Mode::Logs("x".to_string())), None);
}

#[test]
fn string_set_insert_then_remove() {
    let mut s = StringSet::new();
    s.insert("a".to_string());
    s.insert("b".to_string());
    s.insert("a".to_string());
    assert_eq!(s.len(), 2);
    assert!(s.contains("a"));
    s.remove("a");
    assert!(!s.contains("a"));
    assert_eq!(s.len(), 1);
}

#[test]
fn host_panel_goes_up_to_the_parent_directory() {
    let mut state = AppState::new();
    state.explorer.host.path = "/home/user".to_string();
    let cmds = reduce_at(&mut state, AppEvent::ExplorerHostGoUp, 0);
    assert_eq!(cmds, vec![Command::ListHostDir("/home".to_string())]);
    assert_eq!(state.explorer.host.path, "/home");
    let cmds = reduce_at(&mut state, AppEvent::ExplorerHostGoUp, 0);
    assert_eq!(cmds, vec![Command::ListHostDir("/".to_string())]);
    let cmds = reduce_at(&mut state, AppEvent::ExplorerHostGoUp, 0);
    assert!(cmds.is_empty());
    assert_eq!(state.explorer.host.path, "/");
}

fn detail_texts(lines: &[DetailLine]) -> Vec<String> {
    lines.iter().map(|l| format!("{}{}", l.lead, l.text)).collect()
}

#[test]
fn details_before_and_after_inspection() {
    let extra = ContainerStateExtra::new();
    let mut d = DetailsState { id: "c1".to_string(), container_id: "c1".to_string(), json: None, scroll_offset: 0 };
    let lines = build_text(&d, &extra, &None);
    assert_eq!(detail_texts(&lines), vec!["  Loading container details..."]);
    assert_eq!(lines[0].color, Some(Color::Yellow));
    d.json = Some("not json".to_string());
    let lines = build_text(&d, &extra, &None);
    assert_eq!(detail_texts(&lines), vec!["  Failed to parse container JSON"]);
    assert_eq!(lines[0].color, Some(Color::Red));
}

fn sample_inspect() -> ContainerInspect {
    let s = |x: &str| x.to_string();
    ContainerInspect {
        name: s("/web"),
        image: s("nginx"),
        cmd: Some(vec![s("nginx"), s("-g"), s("daemon off;")]),
        status: s("running"),
        created: s("2024"),
        env: Some(vec![Some(s("A=1")), None]),
        mounts: Some(vec![(s("/h"), s("/c"))]),
        networks: Some(vec![(s("bridge"), s("172.17.0.2"))]),
        ports: Some(vec![(s("80/tcp"), Some(vec![(s("0.0.0.0"), s("8080"))])), (s("443/tcp"), None)]),
        labels: Some(vec![(s("com.docker.compose.project"), s("shop")), (s("x"), s("y"))]),
    }
}

#[test]
fn details_of_an_inspected_container() {
    let extra = ContainerStateExtra::new();
    let d = DetailsState { id: "c1".to_string(), container_id: "c1".to_string(), json: Some("{}".to_string()), scroll_offset: 0 };
    let lines = build_text(&d, &extra, &Some(sample_inspect()));
    let expected = vec![
        " Name:         web",
        " Image:        nginx",
        " Command:        nginx -g daemon off;",
        " Status:       running",
        " Created:        2024",
        "",
        " COMPOSE",
        "  Project:     shop",
        "",
        " ENVIRONMENT",
        "  A=1",
        "",
        " VOLUMES",
        "  /h → /c",
        "",
        " NETWORKS",
        "  bridge (172.17.0.2)",
        "",
        " PORTS",
        "  0.0.0.0:8080 → 80/tcp",
        "",
        " LABELS",
        "  com.docker.compose.project=shop",
        "  x=y",
        "",
    ];
    assert_eq!(detail_texts(&lines), expected);
    assert_eq!(lines[3].lead, " Status:       ");
    assert_eq!(lines[3].color, Some(Color::Green));
    assert_eq!(lines[6].color, Some(Color::Cyan));
}

#[test]
fn details_show_a_stop_under_way() {
    let mut extra = ContainerStateExtra::new();
    extra.stopping_containers.insert("c1".to_string());
    let d = DetailsState { id: "c1".to_string(), container_id: "c1".to_string(), json: Some("{}".to_string()), scroll_offset: 0 };
    let mut c = sample_inspect();
    c.env = Some(vec![]);
    c.labels = None;
    let lines = build_text(&d, &extra, &Some(c));
    assert_eq!(lines[3].text, "stopping...");
    assert_eq!(lines[3].color, Some(Color::Yellow));
    let texts = detail_texts(&lines);
    assert!(!texts.iter().any(|t| t == " ENVIRONMENT" || t == " COMPOSE" || t == " LABELS"));
}

fn run_state() -> omdocker::state::ImageRunState {
    let e = String::new;
    omdocker::state::ImageRunState {
        image_id: "sha256abcdef0123456789".to_string(),
        command: e(),
        shell: "bash".to_string(),
        user: e(),
        workdir: e(),
        env_vars: e(),
        port_mapping: e(),
        volumes: e(),
        container_name: e(),
        autoremove: false,
        restart_policy: e(),
        memory_limit: e(),
        cpu_limit: e(),
        network: e(),
        labels: e(),
        privileged: true,
        field_focus: 5,
        validation_errors: vec![(5, "Invalid port 'x': use HOST:CONTAINER or CONTAINER".to_string())],
        show_advanced: false,
    }
}

#[test]
fn run_form_shows_fields_errors_and_hints() {
    let lines = run_form_lines(&run_state());
    let texts: Vec<&str> = lines.iter().map(|l| l.text.as_str()).collect();
    assert_eq!(texts.len(), 25);
    assert_eq!(texts[0], "   Command");
    assert_eq!(lines[0].color, Some(Color::DarkGray));
    assert_eq!(texts[1], "    (use shell default)");
    assert!(lines[1].bold);
    assert_eq!(texts[3], "    bash");
    assert_eq!(texts[10], " ▸ Port Mapping");
    assert_eq!(lines[10].color, Some(Color::White));
    assert_eq!(texts[11], "    (none)");
    assert_eq!(lines[11].color, Some(Color::Red));
    assert_eq!(texts[12], "    ▲ Invalid port 'x': use HOST:CONTAINER or CONTAINER");
    assert_eq!(texts[18], "    false");
    assert_eq!(texts[20], "  Host:Container or just Container (e.g., '8080:80' or '443')  (type or press Enter for (none))");
    assert_eq!(texts[22], "  ⚠ 1 error — fix before submitting");
    assert_eq!(texts[24], " ↑↓ Tab:next field  Enter:run  Esc:cancel  Type:edit  Bksp:delete  a:toggle  ^A:advanced");
}

#[test]
fn run_form_advanced_fields() {
    let mut run = run_state();
    run.show_advanced = true;
    run.validation_errors = vec![];
    run.field_focus = 14;
    let lines = run_form_lines(&run);
    let texts: Vec<&str> = lines.iter().map(|l| l.text.as_str()).collect();
    assert_eq!(texts.len(), 15 * 2 + 4);
    assert_eq!(texts[28], " ▸ Privileged");
    assert_eq!(texts[29], "    true");
    assert_eq!(texts[31], "  Press a to toggle | true = container runs in privileged mode  (type or press Enter for true)");
}
