use omdocker::ansi::{ansi_bright_color, ansi_color, parse_ansi, parse_u8, Color, TextStyle};
use omdocker::listing::{
    extract_project, format_mode, format_ports, health_of, parse_ls_line, parse_ls_output, sort_entries,
    volume_container_name, volume_container_path, PortBinding,
};
use omdocker::logstream::{log_entry_of, note_timestamp, parse_docker_timestamp};
use omdocker::paths::{container_parent_exec, join_dir_exec, join_plain_exec, join_root_exec, strip_slash_exec, with_slash_exec};
use omdocker::state::ExplorerEntry;
use omdocker::text::{compare_chars, split_chars, str_contains, trim};

fn entry(name: &str, is_dir: bool) -> ExplorerEntry {
    ExplorerEntry {
        name: name.to_string(),
        is_dir,
        size: 0,
        modified: String::new(),
        permissions: String::new(),
    }
}

#[test]
fn format_mode_directory_and_file() {
    assert_eq!(format_mode(0o040755), "drwxr-xr-x");
    assert_eq!(format_mode(0o100644), "-rw-r--r--");
    assert_eq!(format_mode(0), "----------");
    assert_eq!(format_mode(0o777), "-rwxrwxrwx");
}

#[test]
fn parse_ls_line_regular_file() {
    let e = parse_ls_line("-rw-r--r--    1 root     root          1234 Jan  5 12:34 notes.txt").unwrap();
    assert_eq!(e.name, "notes.txt");
    assert!(!e.is_dir);
    assert_eq!(e.size, 1234);
    assert_eq!(e.modified, "Jan 5 12:34");
    assert_eq!(e.permissions, "-rw-r--r--");
}

#[test]
fn parse_ls_line_directory_with_slash_and_spaces() {
    let e = parse_ls_line("drwxr-xr-x    2 root     root          4096 Mar 10  2023 my dir/").unwrap();
    assert_eq!(e.name, "my dir");
    assert!(e.is_dir);
    assert_eq!(e.size, 4096);
    assert_eq!(e.modified, "Mar 10 2023");
}

#[test]
fn parse_ls_line_symlink_drops_target() {
    let e = parse_ls_line("lrwxrwxrwx    1 root     root             7 Jan  1 00:00 bin -> usr/bin").unwrap();
    assert_eq!(e.name, "bin");
    assert!(!e.is_dir);
}

#[test]
fn parse_ls_line_rejections() {
    assert!(parse_ls_line("").is_none());
    assert!(parse_ls_line("   ").is_none());
    assert!(parse_ls_line("total 12").is_none());
    assert!(parse_ls_line("drwxr-xr-x 2 root root 4096 Jan 1 00:00 ./").is_none());
    assert!(parse_ls_line("drwxr-xr-x 2 root root 4096 Jan 1 00:00 ../").is_none());
    assert!(parse_ls_line("crw-rw-rw- 1 root root 1, 3 Jan 1 00:00 null").is_none());
    assert!(parse_ls_line("-rw-r--r-- 1 root root 12 Jan 1").is_none());
}

#[test]
fn parse_ls_line_bad_size_is_zero() {
    let e = parse_ls_line("-rw-r--r-- 1 root root big Jan 1 00:00 f").unwrap();
    assert_eq!(e.size, 0);
}

#[test]
fn ls_output_sorted_files_first_then_by_lowercase_name() {
    let text = "total 8\n\
                drwxr-xr-x 2 root root 4096 Jan 1 00:00 ./\n\
                drwxr-xr-x 2 root root 4096 Jan 1 00:00 Zeta/\n\
                -rw-r--r-- 1 root root 3 Jan 1 00:00 b.txt\n\
                drwxr-xr-x 2 root root 4096 Jan 1 00:00 alpha/\n\
                -rw-r--r-- 1 root root 3 Jan 1 00:00 A.txt\n";
    let entries = parse_ls_output(text);
    let listed: Vec<&str> = entries.iter().map(|e| e.name.as_str()).collect();
    assert_eq!(listed, vec!["Zeta", "b.txt", "alpha", "A.txt"]);
    let entries = sort_entries(entries);
    let names: Vec<&str> = entries.iter().map(|e| e.name.as_str()).collect();
    assert_eq!(names, vec!["A.txt", "b.txt", "alpha", "Zeta"]);
}

#[test]
fn sort_entries_is_stable_for_equal_names() {
    let mut a = entry("same", false);
    a.size = 1;
    let mut b = entry("SAME", false);
    b.size = 2;
    let sorted = sort_entries(vec![entry("dir", true), a, b]);
    assert_eq!(sorted[0].size, 1);
    assert_eq!(sorted[1].size, 2);
    assert_eq!(sorted[2].name, "dir");
}

#[test]
fn volume_helper_names_and_paths() {
    assert_eq!(volume_container_name("data"), "omdocker-vol-data");
    assert_eq!(volume_container_path("/"), "/volume_data");
    assert_eq!(volume_container_path("/etc/"), "/volume_data/etc");
    assert_eq!(volume_container_path("/a/b//"), "/volume_data/a/b");
}

#[test]
fn extract_project_reads_compose_label() {
    let labels = Some(vec![
        ("maintainer".to_string(), "me".to_string()),
        ("com.docker.compose.project".to_string(), "shop".to_string()),
    ]);
    assert_eq!(extract_project(&labels), "shop");
    assert_eq!(extract_project(&Some(vec![])), "");
    assert_eq!(extract_project(&None), "");
}

#[test]
fn path_joins() {
    assert_eq!(join_plain_exec("/", "etc"), "/etc");
    assert_eq!(join_plain_exec("", "etc"), "/etc");
    assert_eq!(join_plain_exec("/usr", "lib"), "/usr/lib");
    assert_eq!(join_dir_exec("/usr/", "lib"), "/usr/lib");
    assert_eq!(join_dir_exec("/usr", "lib"), "/usr/lib");
    assert_eq!(join_root_exec("/", "etc"), "/etc");
    assert_eq!(with_slash_exec("/usr"), "/usr/");
    assert_eq!(with_slash_exec("/usr/"), "/usr/");
    assert_eq!(strip_slash_exec("/usr/"), "/usr");
}

#[test]
fn container_parent_goes_up_one_level() {
    assert_eq!(container_parent_exec("/usr/lib"), "/usr/");
    assert_eq!(container_parent_exec("/usr/lib/"), "/usr/");
    assert_eq!(container_parent_exec("/a/b/c/"), "/a/b/");
    assert_eq!(container_parent_exec("/usr"), "/");
    assert_eq!(container_parent_exec("/"), "/");
}

#[test]
fn text_helpers() {
    assert_eq!(trim("  a b \t"), "a b");
    assert!(str_contains("hello world", "o w"));
    assert!(!str_contains("hello", "world"));
    let pieces = split_chars(&"1;;32".chars().collect(), ';');
    let pieces: Vec<String> = pieces.iter().map(|p| p.iter().collect()).collect();
    assert_eq!(pieces, vec!["1", "", "32"]);
    assert_eq!(compare_chars(&"abc".chars().collect(), &"abd".chars().collect()), -1);
    assert_eq!(compare_chars(&"b".chars().collect(), &"abc".chars().collect()), 1);
    assert_eq!(compare_chars(&"ab".chars().collect(), &"ab".chars().collect()), 0);
}

fn plain() -> TextStyle {
    TextStyle { fg: Some(Color::White), bg: None, bold: false, italic: false, underlined: false, reversed: false }
}

#[test]
fn ansi_colour_tables() {
    assert_eq!(ansi_color(1), Color::Red);
    assert_eq!(ansi_color(7), Color::White);
    assert_eq!(ansi_color(9), Color::Reset);
    assert_eq!(ansi_bright_color(0), Color::DarkGray);
    assert_eq!(ansi_bright_color(4), Color::LightBlue);
}

#[test]
fn parse_u8_accepts_small_numbers_only() {
    assert_eq!(parse_u8(&"31".chars().collect()), Some(31));
    assert_eq!(parse_u8(&"255".chars().collect()), Some(255));
    assert_eq!(parse_u8(&"256".chars().collect()), None);
    assert_eq!(parse_u8(&"".chars().collect()), None);
    assert_eq!(parse_u8(&"+7".chars().collect()), Some(7));
}

#[test]
fn parse_ansi_plain_text_is_one_white_run() {
    let runs = parse_ansi("hello");
    assert_eq!(runs.len(), 1);
    assert_eq!(runs[0].text, "hello");
    assert_eq!(runs[0].style, plain());
}

#[test]
fn parse_ansi_colours_and_reset() {
    let runs = parse_ansi("a\u{1b}[1;31mred\u{1b}[0mb");
    assert_eq!(runs.len(), 3);
    assert_eq!(runs[0].text, "a");
    assert_eq!(runs[0].style, plain());
    assert_eq!(runs[1].text, "red");
    assert_eq!(runs[1].style, TextStyle { fg: Some(Color::Red), bold: true, ..plain() });
    assert_eq!(runs[2].text, "b");
    assert_eq!(runs[2].style, plain());
}

#[test]
fn parse_ansi_background_and_bright() {
    let runs = parse_ansi("\u{1b}[44;93mx");
    assert_eq!(runs.len(), 1);
    assert_eq!(runs[0].text, "x");
    assert_eq!(runs[0].style, TextStyle { fg: Some(Color::LightYellow), bg: Some(Color::Blue), ..plain() });
}

#[test]
fn parse_ansi_only_escapes_keeps_whole_line() {
    let line = "\u{1b}[0m";
    let runs = parse_ansi(line);
    assert_eq!(runs.len(), 1);
    assert_eq!(runs[0].text, line);
    assert_eq!(runs[0].style, plain());
}

#[test]
fn parse_ansi_escape_without_bracket_is_text() {
    let runs = parse_ansi("a\u{1b}b");
    assert_eq!(runs.len(), 1);
    assert_eq!(runs[0].text, "a\u{1b}b");
}

#[test]
fn ports_are_listed_with_protocols() {
    let ports = vec![
        PortBinding { ip: Some("0.0.0.0".to_string()), private_port: 80, public_port: Some(8080), typ: Some("tcp".to_string()) },
        PortBinding { ip: None, private_port: 53, public_port: None, typ: Some("udp".to_string()) },
        PortBinding { ip: Some("::".to_string()), private_port: 443, public_port: None, typ: None },
    ];
    assert_eq!(format_ports(&ports), "0.0.0.0:8080->80/tcp, 53/udp, 443/tcp");
    assert_eq!(format_ports(&vec![]), "");
}

#[test]
fn health_from_status_text() {
    assert_eq!(health_of("Up 5 minutes (healthy)"), "healthy");
    assert_eq!(health_of("Up 1 minute (unhealthy)"), "unhealthy");
    assert_eq!(health_of("Up 3 seconds (health: starting)"), "starting");
    assert_eq!(health_of("Exited (0) 2 hours ago"), "");
}

#[test]
fn log_lines_split_at_the_first_space() {
    let e = log_entry_of("2024-01-02T03:04:05.123456789Z hello world");
    assert_eq!(e.timestamp, "2024-01-02T03:04:05.123456789Z");
    assert_eq!(e.message, "hello world");
    let e = log_entry_of("nospace");
    assert_eq!(e.timestamp, "");
    assert_eq!(e.message, "nospace");
    assert_eq!(parse_docker_timestamp("2024-01-02T03:04:05.123456789Z"), Ok(1704164645));
    assert_eq!(parse_docker_timestamp("1970-01-01T00:00:10Z"), Ok(10));
    assert_eq!(parse_docker_timestamp("2024-01-02T03:04:05"), Err(()));
    assert_eq!(parse_docker_timestamp("not a timestamp at all"), Err(()));
    assert_eq!(note_timestamp(5, "1970-01-01T00:00:10Z"), 10);
    assert_eq!(note_timestamp(50, "1970-01-01T00:00:10Z"), 50);
    assert_eq!(note_timestamp(7, "garbage"), 7);
}
