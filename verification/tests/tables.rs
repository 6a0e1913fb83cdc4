use omdocker::collections::StringSet;
use omdocker::event::ContainerSummary;
use omdocker::state::{AppState, ExplorerEntry};
use omdocker::table::{
    container_rows, container_title_text, list_title_text, panel_rows, state_label_text, ContainerRow, PanelRow,
};

fn container(id: &str, project: &str, health: &str) -> ContainerSummary {
    ContainerSummary {
        id: id.to_string(),
        name: format!("n-{}", id),
        image: "nginx".to_string(),
        state: "running".to_string(),
        status: "Up 3 minutes".to_string(),
        ports: String::new(),
        project: project.to_string(),
        health: health.to_string(),
    }
}

#[test]
fn container_table_groups_by_project_in_name_order() {
    let items = vec![container("a", "web", ""), container("b", "", ""), container("c", "api", ""), container("d", "web", "")];
    let rows = container_rows(&items, &vec![0, 1, 2, 3]);
    assert_eq!(
        rows,
        vec![
            ContainerRow::Group { name: "Ungrouped".to_string(), count: 1 },
            ContainerRow::Item { index: 1 },
            ContainerRow::Group { name: "api".to_string(), count: 1 },
            ContainerRow::Item { index: 2 },
            ContainerRow::Group { name: "web".to_string(), count: 2 },
            ContainerRow::Item { index: 0 },
            ContainerRow::Item { index: 3 },
        ]
    );
    assert!(container_rows(&items, &vec![]).is_empty());
}

#[test]
fn container_titles() {
    let mut s = AppState::new();
    assert_eq!(container_title_text(&s, '⠋'), " CONTAINERS ⠋ (loading...) ");
    s.containers.loading = false;
    s.containers.items = vec![container("a", "", ""), container("b", "", "")];
    s.containers.filtered = vec![0, 1];
    assert_eq!(container_title_text(&s, '●'), " CONTAINERS ● (2) ");
    s.container_extra.status_filter = "running".to_string();
    assert_eq!(container_title_text(&s, '●'), " CONTAINERS ● (2) [running] ");
    s.container_extra.selection_mode = true;
    s.container_extra.selected_ids.insert("a".to_string());
    assert_eq!(container_title_text(&s, '●'), " CONTAINERS ● (2) [1] ");
    s.containers.filter = "b".to_string();
    s.containers.filtered = vec![1];
    assert_eq!(container_title_text(&s, '●'), " CONTAINERS ● (1/2) FILTER 'b' ");
}

#[test]
fn list_titles() {
    assert_eq!(list_title_text("IMAGES", true, '⠋', 0, 0, ""), " IMAGES ⠋ (loading...) ");
    assert_eq!(list_title_text("IMAGES", false, '●', 3, 5, ""), " IMAGES ● (3) ");
    assert_eq!(list_title_text("IMAGES", false, '●', 3, 5, "ng"), " IMAGES ● (3/5) FILTER 'ng' ");
}

#[test]
fn state_labels_show_health_and_work_under_way() {
    let none = StringSet::new();
    let mut stopping = StringSet::new();
    stopping.insert("a".to_string());
    assert_eq!(state_label_text(&container("a", "", "healthy"), &none, &none, &none), "● Up 3 minutes");
    assert_eq!(state_label_text(&container("a", "", "unhealthy"), &stopping, &none, &none), "✗ stopping...");
    assert_eq!(state_label_text(&container("a", "", "starting"), &none, &stopping, &none), "◐ starting...");
    assert_eq!(state_label_text(&container("a", "", ""), &none, &none, &stopping), "deleting...");
}

fn entry(name: &str) -> ExplorerEntry {
    ExplorerEntry { name: name.to_string(), is_dir: false, size: 0, modified: String::new(), permissions: String::new() }
}

#[test]
fn panel_rows_count_the_parent_row() {
    let mut s = AppState::new();
    let p = &mut s.explorer.host;
    p.path = "/home".to_string();
    p.items = vec![entry("a"), entry("b")];
    p.selected = 2;
    p.selected_names.insert("a".to_string());
    assert_eq!(
        panel_rows(p, true),
        vec![
            PanelRow::Parent { cursor: false },
            PanelRow::Entry { index: 0, cursor: false, marked: true },
            PanelRow::Entry { index: 1, cursor: true, marked: false },
        ]
    );
    assert_eq!(panel_rows(p, false)[2], PanelRow::Entry { index: 1, cursor: false, marked: false });
    p.path = "/".to_string();
    p.selected = 0;
    assert_eq!(
        panel_rows(p, true),
        vec![PanelRow::Entry { index: 0, cursor: true, marked: true }, PanelRow::Entry { index: 1, cursor: false, marked: false }]
    );
}
