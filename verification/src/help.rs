//! The help text: every key binding with what it does, grouped by view,
//! the key column padded to a common width.

use vstd::prelude::*;
use crate::config::{key_first, texts, Keybindings};
use crate::text::{chars_of, concat, owned, push_char, string_of};

verus! {

/// The first key of a binding, or nothing.
pub open spec fn first_key(v: Seq<String>) -> Seq<char> {
    if v.len() > 0 { v[0]@ } else { Seq::empty() }
}

/// The key column of an entry for a binding: its first key, indented.
pub open spec fn key_col(v: Seq<String>) -> Seq<char> {
    "    "@ + first_key(v) + " "@
}

/// The key column of an entry for a binding shown with an arrow key too.
pub open spec fn key_col_arrow(v: Seq<String>, arrow: Seq<char>) -> Seq<char> {
    "    "@ + first_key(v) + " / "@ + arrow + " "@
}

/// The entries of a help list as plain text: a key column (for key
/// entries) and the rest of the line.
pub open spec fn entries_view(v: Seq<(Option<String>, String)>) -> Seq<(Option<Seq<char>>, Seq<char>)> {
    v.map_values(|e: (Option<String>, String)| (match e.0 { Some(k) => Some(k@), None => None }, e.1@))
}

fn push_entry(out: &mut Vec<(Option<String>, String)>, e: (Option<String>, String))
    ensures
        entries_view(final(out)@) == entries_view(old(out)@).push((match e.0 { Some(k) => Some(k@), None => None }, e.1@)),
{
    out.push(e);
    assert(entries_view(out@) =~= entries_view(old(out)@).push((match e.0 { Some(k) => Some(k@), None => None }, e.1@)));
}

fn key_col_exec(v: &Vec<String>) -> (r: String)
    ensures
        r@ == key_col(v@),
{
    let k = key_first(v);
    let a = concat("    ", k.as_str());
    concat(a.as_str(), " ")
}

fn key_col_arrow_exec(v: &Vec<String>, arrow: &str) -> (r: String)
    ensures
        r@ == key_col_arrow(v@, arrow@),
{
    let k = key_first(v);
    let a = concat("    ", k.as_str());
    let a = concat(a.as_str(), " / ");
    let a = concat(a.as_str(), arrow);
    concat(a.as_str(), " ")
}

fn close_line(kb: &Keybindings) -> (r: String)
    ensures
        r@ == "  Press "@ + first_key(kb.back@) + " or "@ + first_key(kb.help@) + " to close"@,
{
    let a = concat("  Press ", key_first(&kb.back).as_str());
    let a = concat(a.as_str(), " or ");
    let a = concat(a.as_str(), key_first(&kb.help).as_str());
    concat(a.as_str(), " to close")
}

/// The help entries of the top part.
pub open spec fn help_top(kb: Keybindings) -> Seq<(Option<Seq<char>>, Seq<char>)> {
    seq![
        (None::<Seq<char>>, "  "@ + ""@),
        (Some(key_col(kb.quit@)), "Quit"@),
        (Some(key_col(kb.back@)), "Go back / close"@),
        (None::<Seq<char>>, Seq::<char>::empty()),
    ]
}

fn push_top(kb: &Keybindings, out: &mut Vec<(Option<String>, String)>)
    ensures
        entries_view(final(out)@) == entries_view(old(out)@) + help_top(*kb),
{
    let ghost start = entries_view(out@);
    push_entry(out, (None, concat("  ", "")));
    push_entry(out, (Some(key_col_exec(&kb.quit)), owned("Quit")));
    push_entry(out, (Some(key_col_exec(&kb.back)), owned("Go back / close")));
    push_entry(out, (None, String::new()));
    assert(entries_view(out@) =~= start + help_top(*kb));
}

/// The help entries of the global part.
pub open spec fn help_global(kb: Keybindings) -> Seq<(Option<Seq<char>>, Seq<char>)> {
    seq![
        (None::<Seq<char>>, "  "@ + "GLOBAL NAVIGATION"@),
        (Some("    c "@), "Containers view"@),
        (Some("    i "@), "Images view"@),
        (Some("    n "@), "Networks view"@),
        (Some("    v "@), "Volumes view"@),
        (Some("    e "@), "Events view"@),
        (Some("    % "@), "Statistics view"@),
        (Some(key_col(kb.help@)), "Help view"@),
        (Some("    Tab     "@), "Next tab"@),
        (Some("    S-Tab   "@), "Previous tab"@),
        (Some("    U       "@), "Check for updates / download"@),
        (None::<Seq<char>>, Seq::<char>::empty()),
    ]
}

fn push_global(kb: &Keybindings, out: &mut Vec<(Option<String>, String)>)
    ensures
        entries_view(final(out)@) == entries_view(old(out)@) + help_global(*kb),
{
    let ghost start = entries_view(out@);
    push_entry(out, (None, concat("  ", "GLOBAL NAVIGATION")));
    push_entry(out, (Some(owned("    c ")), owned("Containers view")));
    push_entry(out, (Some(owned("    i ")), owned("Images view")));
    push_entry(out, (Some(owned("    n ")), owned("Networks view")));
    push_entry(out, (Some(owned("    v ")), owned("Volumes view")));
    push_entry(out, (Some(owned("    e ")), owned("Events view")));
    push_entry(out, (Some(owned("    % ")), owned("Statistics view")));
    push_entry(out, (Some(key_col_exec(&kb.help)), owned("Help view")));
    push_entry(out, (Some(owned("    Tab     ")), owned("Next tab")));
    push_entry(out, (Some(owned("    S-Tab   ")), owned("Previous tab")));
    push_entry(out, (Some(owned("    U       ")), owned("Check for updates / download")));
    push_entry(out, (None, String::new()));
    assert(entries_view(out@) =~= start + help_global(*kb));
}

/// The help entries of the containers part.
pub open spec fn help_containers(kb: Keybindings) -> Seq<(Option<Seq<char>>, Seq<char>)> {
    seq![
        (None::<Seq<char>>, "  "@ + "CONTAINERS"@),
        (Some(key_col_arrow(kb.navigate_down@, "↓"@)), "Navigate down"@),
        (Some(key_col_arrow(kb.navigate_up@, "↑"@)), "Navigate up"@),
        (Some(key_col(kb.open_details@)), "Open details"@),
        (Some(key_col(kb.open_logs@)), "Open logs"@),
        (Some(key_col(kb.open_shell@)), "Open shell (exec)"@),
        (Some("    x       "@), "Open file explorer"@),
        (Some(key_col(kb.start_stop@)), "Start/Stop container"@),
        (Some(key_col(kb.restart@)), "Restart container"@),
        (Some(key_col(kb.delete@)), "Delete container"@),
        (Some(key_col(kb.search@)), "Search/filter"@),
        (Some(key_col(kb.toggle_selection@)), "Toggle selection mode"@),
        (Some(key_col(kb.select_all@)), "Select all (in selection mode)"@),
        (Some("    S       "@), "Cycle status filter (All/Running/Stopped/Paused)"@),
        (Some("    Ctrl+O  "@), "Column picker"@),
        (None::<Seq<char>>, Seq::<char>::empty()),
    ]
}

fn push_containers(kb: &Keybindings, out: &mut Vec<(Option<String>, String)>)
    ensures
        entries_view(final(out)@) == entries_view(old(out)@) + help_containers(*kb),
{
    let ghost start = entries_view(out@);
    push_entry(out, (None, concat("  ", "CONTAINERS")));
    push_entry(out, (Some(key_col_arrow_exec(&kb.navigate_down, "↓")), owned("Navigate down")));
    push_entry(out, (Some(key_col_arrow_exec(&kb.navigate_up, "↑")), owned("Navigate up")));
    push_entry(out, (Some(key_col_exec(&kb.open_details)), owned("Open details")));
    push_entry(out, (Some(key_col_exec(&kb.open_logs)), owned("Open logs")));
    push_entry(out, (Some(key_col_exec(&kb.open_shell)), owned("Open shell (exec)")));
    push_entry(out, (Some(owned("    x       ")), owned("Open file explorer")));
    push_entry(out, (Some(key_col_exec(&kb.start_stop)), owned("Start/Stop container")));
    push_entry(out, (Some(key_col_exec(&kb.restart)), owned("Restart container")));
    push_entry(out, (Some(key_col_exec(&kb.delete)), owned("Delete container")));
    push_entry(out, (Some(key_col_exec(&kb.search)), owned("Search/filter")));
    push_entry(out, (Some(key_col_exec(&kb.toggle_selection)), owned("Toggle selection mode")));
    push_entry(out, (Some(key_col_exec(&kb.select_all)), owned("Select all (in selection mode)")));
    push_entry(out, (Some(owned("    S       ")), owned("Cycle status filter (All/Running/Stopped/Paused)")));
    push_entry(out, (Some(owned("    Ctrl+O  ")), owned("Column picker")));
    push_entry(out, (None, String::new()));
    assert(entries_view(out@) =~= start + help_containers(*kb));
}

/// The help entries of the details part.
pub open spec fn help_details(kb: Keybindings) -> Seq<(Option<Seq<char>>, Seq<char>)> {
    seq![
        (None::<Seq<char>>, "  "@ + "CONTAINER DETAILS"@),
        (Some(key_col(kb.open_logs@)), "Open logs"@),
        (Some(key_col(kb.open_shell@)), "Open shell (exec)"@),
        (Some(key_col(kb.restart@)), "Restart container"@),
        (Some(key_col(kb.start_stop@)), "Start/Stop container"@),
        (Some("    x       "@), "Open file explorer"@),
        (Some(key_col_arrow(kb.navigate_up@, "↓"@)), "Scroll down"@),
        (Some(key_col_arrow(kb.navigate_down@, "↑"@)), "Scroll up"@),
        (Some("    PgDn    "@), "Page down"@),
        (Some("    PgUp    "@), "Page up"@),
        (Some(key_col(kb.jump_top@)), "Jump to top"@),
        (Some(key_col(kb.jump_bottom@)), "Jump to bottom"@),
        (None::<Seq<char>>, Seq::<char>::empty()),
    ]
}

fn push_details(kb: &Keybindings, out: &mut Vec<(Option<String>, String)>)
    ensures
        entries_view(final(out)@) == entries_view(old(out)@) + help_details(*kb),
{
    let ghost start = entries_view(out@);
    push_entry(out, (None, concat("  ", "CONTAINER DETAILS")));
    push_entry(out, (Some(key_col_exec(&kb.open_logs)), owned("Open logs")));
    push_entry(out, (Some(key_col_exec(&kb.open_shell)), owned("Open shell (exec)")));
    push_entry(out, (Some(key_col_exec(&kb.restart)), owned("Restart container")));
    push_entry(out, (Some(key_col_exec(&kb.start_stop)), owned("Start/Stop container")));
    push_entry(out, (Some(owned("    x       ")), owned("Open file explorer")));
    push_entry(out, (Some(key_col_arrow_exec(&kb.navigate_up, "↓")), owned("Scroll down")));
    push_entry(out, (Some(key_col_arrow_exec(&kb.navigate_down, "↑")), owned("Scroll up")));
    push_entry(out, (Some(owned("    PgDn    ")), owned("Page down")));
    push_entry(out, (Some(owned("    PgUp    ")), owned("Page up")));
    push_entry(out, (Some(key_col_exec(&kb.jump_top)), owned("Jump to top")));
    push_entry(out, (Some(key_col_exec(&kb.jump_bottom)), owned("Jump to bottom")));
    push_entry(out, (None, String::new()));
    assert(entries_view(out@) =~= start + help_details(*kb));
}

/// The help entries of the images part.
pub open spec fn help_images(kb: Keybindings) -> Seq<(Option<Seq<char>>, Seq<char>)> {
    seq![
        (None::<Seq<char>>, "  "@ + "IMAGES"@),
        (Some(key_col_arrow(kb.navigate_images@, "↓"@)), "Navigate down"@),
        (Some(key_col_arrow(kb.navigate_up@, "↑"@)), "Navigate up"@),
        (Some(key_col(kb.run_image@)), "Run image"@),
        (Some(key_col(kb.remove_image@)), "Remove image"@),
        (Some(key_col(kb.remove_dangling_images@)), "Remove dangling images"@),
        (Some(key_col(kb.prune_images@)), "Prune unused images"@),
        (Some(key_col(kb.search@)), "Search/filter"@),
        (Some("    Ctrl+O  "@), "Column picker"@),
        (None::<Seq<char>>, Seq::<char>::empty()),
    ]
}

fn push_images(kb: &Keybindings, out: &mut Vec<(Option<String>, String)>)
    ensures
        entries_view(final(out)@) == entries_view(old(out)@) + help_images(*kb),
{
    let ghost start = entries_view(out@);
    push_entry(out, (None, concat("  ", "IMAGES")));
    push_entry(out, (Some(key_col_arrow_exec(&kb.navigate_images, "↓")), owned("Navigate down")));
    push_entry(out, (Some(key_col_arrow_exec(&kb.navigate_up, "↑")), owned("Navigate up")));
    push_entry(out, (Some(key_col_exec(&kb.run_image)), owned("Run image")));
    push_entry(out, (Some(key_col_exec(&kb.remove_image)), owned("Remove image")));
    push_entry(out, (Some(key_col_exec(&kb.remove_dangling_images)), owned("Remove dangling images")));
    push_entry(out, (Some(key_col_exec(&kb.prune_images)), owned("Prune unused images")));
    push_entry(out, (Some(key_col_exec(&kb.search)), owned("Search/filter")));
    push_entry(out, (Some(owned("    Ctrl+O  ")), owned("Column picker")));
    push_entry(out, (None, String::new()));
    assert(entries_view(out@) =~= start + help_images(*kb));
}

/// The help entries of the forms part.
pub open spec fn help_forms(kb: Keybindings) -> Seq<(Option<Seq<char>>, Seq<char>)> {
    seq![
        (None::<Seq<char>>, "  "@ + "IMAGE RUN FORM"@),
        (Some("    Tab / ↓ "@), "Next field"@),
        (Some("    ↑         "@), "Previous field"@),
        (Some("    a         "@), "Toggle autoremove / restart policy / privileged"@),
        (Some("    Ctrl+A    "@), "Toggle advanced options"@),
        (Some("    Enter     "@), "Create and run container"@),
        (None::<Seq<char>>, Seq::<char>::empty()),
        (None::<Seq<char>>, "  "@ + "SHELL CONFIG FORM"@),
        (Some("    Tab / ↓ "@), "Next field"@),
        (Some("    ↑         "@), "Previous field"@),
        (Some("    Enter     "@), "Save config + launch shell"@),
        (None::<Seq<char>>, Seq::<char>::empty()),
    ]
}

fn push_forms(kb: &Keybindings, out: &mut Vec<(Option<String>, String)>)
    ensures
        entries_view(final(out)@) == entries_view(old(out)@) + help_forms(*kb),
{
    let ghost start = entries_view(out@);
    push_entry(out, (None, concat("  ", "IMAGE RUN FORM")));
    push_entry(out, (Some(owned("    Tab / ↓ ")), owned("Next field")));
    push_entry(out, (Some(owned("    ↑         ")), owned("Previous field")));
    push_entry(out, (Some(owned("    a         ")), owned("Toggle autoremove / restart policy / privileged")));
    push_entry(out, (Some(owned("    Ctrl+A    ")), owned("Toggle advanced options")));
    push_entry(out, (Some(owned("    Enter     ")), owned("Create and run container")));
    push_entry(out, (None, String::new()));
    push_entry(out, (None, concat("  ", "SHELL CONFIG FORM")));
    push_entry(out, (Some(owned("    Tab / ↓ ")), owned("Next field")));
    push_entry(out, (Some(owned("    ↑         ")), owned("Previous field")));
    push_entry(out, (Some(owned("    Enter     ")), owned("Save config + launch shell")));
    push_entry(out, (None, String::new()));
    assert(entries_view(out@) =~= start + help_forms(*kb));
}

/// The help entries of the logs part.
pub open spec fn help_logs(kb: Keybindings) -> Seq<(Option<Seq<char>>, Seq<char>)> {
    seq![
        (None::<Seq<char>>, "  "@ + "LOGS"@),
        (Some(key_col_arrow(kb.navigate_down@, "↓"@)), "Scroll down"@),
        (Some(key_col_arrow(kb.navigate_up@, "↑"@)), "Scroll up"@),
        (Some("    PgDn    "@), "Page down"@),
        (Some("    PgUp    "@), "Page up"@),
        (Some(key_col(kb.jump_bottom@)), "Jump to bottom"@),
        (Some(key_col(kb.jump_top@)), "Jump to top"@),
        (Some(key_col(kb.search@)), "Search within logs"@),
        (Some("    Space / p "@), "Pause/unpause auto-scroll"@),
        (Some("    r         "@), "Reconnect (when paused)"@),
        (Some("    s / Ctrl+S"@), "Export logs to file"@),
        (Some(key_col(kb.toggle_timestamps@)), "Toggle timestamps"@),
        (None::<Seq<char>>, Seq::<char>::empty()),
    ]
}

fn push_logs(kb: &Keybindings, out: &mut Vec<(Option<String>, String)>)
    ensures
        entries_view(final(out)@) == entries_view(old(out)@) + help_logs(*kb),
{
    let ghost start = entries_view(out@);
    push_entry(out, (None, concat("  ", "LOGS")));
    push_entry(out, (Some(key_col_arrow_exec(&kb.navigate_down, "↓")), owned("Scroll down")));
    push_entry(out, (Some(key_col_arrow_exec(&kb.navigate_up, "↑")), owned("Scroll up")));
    push_entry(out, (Some(owned("    PgDn    ")), owned("Page down")));
    push_entry(out, (Some(owned("    PgUp    ")), owned("Page up")));
    push_entry(out, (Some(key_col_exec(&kb.jump_bottom)), owned("Jump to bottom")));
    push_entry(out, (Some(key_col_exec(&kb.jump_top)), owned("Jump to top")));
    push_entry(out, (Some(key_col_exec(&kb.search)), owned("Search within logs")));
    push_entry(out, (Some(owned("    Space / p ")), owned("Pause/unpause auto-scroll")));
    push_entry(out, (Some(owned("    r         ")), owned("Reconnect (when paused)")));
    push_entry(out, (Some(owned("    s / Ctrl+S")), owned("Export logs to file")));
    push_entry(out, (Some(key_col_exec(&kb.toggle_timestamps)), owned("Toggle timestamps")));
    push_entry(out, (None, String::new()));
    assert(entries_view(out@) =~= start + help_logs(*kb));
}

/// The help entries of the events part.
pub open spec fn help_events(kb: Keybindings) -> Seq<(Option<Seq<char>>, Seq<char>)> {
    seq![
        (None::<Seq<char>>, "  "@ + "EVENTS"@),
        (Some(key_col_arrow(kb.navigate_down@, "↓"@)), "Scroll down"@),
        (Some(key_col_arrow(kb.navigate_up@, "↑"@)), "Scroll up"@),
        (Some("    PgDn    "@), "Page down"@),
        (Some("    PgUp    "@), "Page up"@),
        (Some(key_col(kb.jump_top@)), "Jump to top"@),
        (Some(key_col(kb.jump_bottom@)), "Jump to bottom"@),
        (Some(key_col(kb.search@)), "Filter events"@),
        (None::<Seq<char>>, Seq::<char>::empty()),
        (None::<Seq<char>>, "  "@ + "STATISTICS"@),
        (Some("    ← / →   "@), "Cycle sort field"@),
        (Some(key_col(kb.sort_direction@)), "Toggle sort direction"@),
        (None::<Seq<char>>, Seq::<char>::empty()),
    ]
}

fn push_events(kb: &Keybindings, out: &mut Vec<(Option<String>, String)>)
    ensures
        entries_view(final(out)@) == entries_view(old(out)@) + help_events(*kb),
{
    let ghost start = entries_view(out@);
    push_entry(out, (None, concat("  ", "EVENTS")));
    push_entry(out, (Some(key_col_arrow_exec(&kb.navigate_down, "↓")), owned("Scroll down")));
    push_entry(out, (Some(key_col_arrow_exec(&kb.navigate_up, "↑")), owned("Scroll up")));
    push_entry(out, (Some(owned("    PgDn    ")), owned("Page down")));
    push_entry(out, (Some(owned("    PgUp    ")), owned("Page up")));
    push_entry(out, (Some(key_col_exec(&kb.jump_top)), owned("Jump to top")));
    push_entry(out, (Some(key_col_exec(&kb.jump_bottom)), owned("Jump to bottom")));
    push_entry(out, (Some(key_col_exec(&kb.search)), owned("Filter events")));
    push_entry(out, (None, String::new()));
    push_entry(out, (None, concat("  ", "STATISTICS")));
    push_entry(out, (Some(owned("    ← / →   ")), owned("Cycle sort field")));
    push_entry(out, (Some(key_col_exec(&kb.sort_direction)), owned("Toggle sort direction")));
    push_entry(out, (None, String::new()));
    assert(entries_view(out@) =~= start + help_events(*kb));
}

/// The help entries of the lists part.
pub open spec fn help_lists(kb: Keybindings) -> Seq<(Option<Seq<char>>, Seq<char>)> {
    seq![
        (None::<Seq<char>>, "  "@ + "NETWORKS"@),
        (Some(key_col_arrow(kb.navigate_down@, "↓"@)), "Navigate down"@),
        (Some(key_col_arrow(kb.navigate_up@, "↑"@)), "Navigate up"@),
        (Some(key_col(kb.delete@)), "Delete selected"@),
        (Some(key_col(kb.search@)), "Search/filter"@),
        (Some("    Ctrl+O  "@), "Column picker"@),
        (None::<Seq<char>>, Seq::<char>::empty()),
        (None::<Seq<char>>, "  "@ + "VOLUMES"@),
        (Some(key_col_arrow(kb.navigate_down@, "↓"@)), "Navigate down"@),
        (Some(key_col_arrow(kb.navigate_up@, "↑"@)), "Navigate up"@),
        (Some(key_col(kb.delete@)), "Delete selected"@),
        (Some(key_col(kb.search@)), "Search/filter"@),
        (Some("    Ctrl+O  "@), "Column picker"@),
        (None::<Seq<char>>, Seq::<char>::empty()),
    ]
}

fn push_lists(kb: &Keybindings, out: &mut Vec<(Option<String>, String)>)
    ensures
        entries_view(final(out)@) == entries_view(old(out)@) + help_lists(*kb),
{
    let ghost start = entries_view(out@);
    push_entry(out, (None, concat("  ", "NETWORKS")));
    push_entry(out, (Some(key_col_arrow_exec(&kb.navigate_down, "↓")), owned("Navigate down")));
    push_entry(out, (Some(key_col_arrow_exec(&kb.navigate_up, "↑")), owned("Navigate up")));
    push_entry(out, (Some(key_col_exec(&kb.delete)), owned("Delete selected")));
    push_entry(out, (Some(key_col_exec(&kb.search)), owned("Search/filter")));
    push_entry(out, (Some(owned("    Ctrl+O  ")), owned("Column picker")));
    push_entry(out, (None, String::new()));
    push_entry(out, (None, concat("  ", "VOLUMES")));
    push_entry(out, (Some(key_col_arrow_exec(&kb.navigate_down, "↓")), owned("Navigate down")));
    push_entry(out, (Some(key_col_arrow_exec(&kb.navigate_up, "↑")), owned("Navigate up")));
    push_entry(out, (Some(key_col_exec(&kb.delete)), owned("Delete selected")));
    push_entry(out, (Some(key_col_exec(&kb.search)), owned("Search/filter")));
    push_entry(out, (Some(owned("    Ctrl+O  ")), owned("Column picker")));
    push_entry(out, (None, String::new()));
    assert(entries_view(out@) =~= start + help_lists(*kb));
}

/// The help entries of the explorer part.
pub open spec fn help_explorer(kb: Keybindings) -> Seq<(Option<Seq<char>>, Seq<char>)> {
    seq![
        (None::<Seq<char>>, "  "@ + "EXPLORER"@),
        (Some("    Tab           "@), "Switch between host/container panels"@),
        (Some(key_col_arrow(kb.navigate_down@, "↓"@)), "Navigate entries"@),
        (Some(key_col_arrow(kb.navigate_up@, "↑"@)), "Navigate up"@),
        (Some("    Enter         "@), "Open directory"@),
        (Some("    Backspace     "@), "Go up to parent"@),
        (Some("    PgDn          "@), "Page down"@),
        (Some("    PgUp          "@), "Page up"@),
        (Some(key_col(kb.jump_top@)), "Jump to beginning"@),
        (Some(key_col(kb.jump_bottom@)), "Jump to end"@),
        (Some("    Ctrl+C        "@), "Copy file between panels"@),
        (Some("    d             "@), "Delete file/dir"@),
        (Some("    r             "@), "Rename file/dir"@),
        (Some("    R             "@), "Refresh panel"@),
        (Some(key_col(kb.search@)), "Filter entries"@),
        (None::<Seq<char>>, Seq::<char>::empty()),
        (None::<Seq<char>>, "  Press "@ + first_key(kb.back@) + " or "@ + first_key(kb.help@) + " to close"@),
    ]
}

fn push_explorer(kb: &Keybindings, out: &mut Vec<(Option<String>, String)>)
    ensures
        entries_view(final(out)@) == entries_view(old(out)@) + help_explorer(*kb),
{
    let ghost start = entries_view(out@);
    push_entry(out, (None, concat("  ", "EXPLORER")));
    push_entry(out, (Some(owned("    Tab           ")), owned("Switch between host/container panels")));
    push_entry(out, (Some(key_col_arrow_exec(&kb.navigate_down, "↓")), owned("Navigate entries")));
    push_entry(out, (Some(key_col_arrow_exec(&kb.navigate_up, "↑")), owned("Navigate up")));
    push_entry(out, (Some(owned("    Enter         ")), owned("Open directory")));
    push_entry(out, (Some(owned("    Backspace     ")), owned("Go up to parent")));
    push_entry(out, (Some(owned("    PgDn          ")), owned("Page down")));
    push_entry(out, (Some(owned("    PgUp          ")), owned("Page up")));
    push_entry(out, (Some(key_col_exec(&kb.jump_top)), owned("Jump to beginning")));
    push_entry(out, (Some(key_col_exec(&kb.jump_bottom)), owned("Jump to end")));
    push_entry(out, (Some(owned("    Ctrl+C        ")), owned("Copy file between panels")));
    push_entry(out, (Some(owned("    d             ")), owned("Delete file/dir")));
    push_entry(out, (Some(owned("    r             ")), owned("Rename file/dir")));
    push_entry(out, (Some(owned("    R             ")), owned("Refresh panel")));
    push_entry(out, (Some(key_col_exec(&kb.search)), owned("Filter entries")));
    push_entry(out, (None, String::new()));
    push_entry(out, (None, close_line(kb)));
    assert(entries_view(out@) =~= start + help_explorer(*kb));
}

/// Every entry of the help text, in order.
pub open spec fn help_entries(kb: Keybindings) -> Seq<(Option<Seq<char>>, Seq<char>)> {
    help_top(kb) + help_global(kb) + help_containers(kb) + help_details(kb) + help_images(kb) + help_forms(kb) + help_logs(kb) + help_events(kb) + help_lists(kb) + help_explorer(kb)
}

fn build_entries(kb: &Keybindings) -> (r: Vec<(Option<String>, String)>)
    ensures
        entries_view(r@) == help_entries(*kb),
{
    let mut out: Vec<(Option<String>, String)> = Vec::new();
    assert(entries_view(out@) =~= Seq::<(Option<Seq<char>>, Seq<char>)>::empty());
    push_top(kb, &mut out);
    push_global(kb, &mut out);
    push_containers(kb, &mut out);
    push_details(kb, &mut out);
    push_images(kb, &mut out);
    push_forms(kb, &mut out);
    push_logs(kb, &mut out);
    push_events(kb, &mut out);
    push_lists(kb, &mut out);
    push_explorer(kb, &mut out);
    assert(entries_view(out@) =~= help_entries(*kb));
    out
}

/// The number of bytes `c` takes in UTF-8.
pub open spec fn char_width(c: char) -> nat {
    let u = c as u32;
    if u < 0x80 { 1 } else if u < 0x800 { 2 } else if u < 0x10000 { 3 } else { 4 }
}

/// The number of bytes `s` takes in UTF-8 (`str::len`).
pub open spec fn utf8_len(s: Seq<char>) -> nat
    decreases s.len(),
{
    if s.len() == 0 { 0 } else { utf8_len(s.drop_last()) + char_width(s.last()) }
}

/// The widest key column, in bytes, among the first `n` entries.
pub open spec fn key_width(es: Seq<(Option<Seq<char>>, Seq<char>)>, n: int) -> nat
    decreases n,
{
    if n <= 0 {
        0
    } else {
        let prev = key_width(es, n - 1);
        let w = match es[n - 1].0 { Some(k) => utf8_len(k), None => 0 };
        if w > prev { w } else { prev }
    }
}

/// `n` spaces.
pub open spec fn spaces(n: nat) -> Seq<char> {
    Seq::new(n, |i: int| ' ')
}

/// One line of the help text: a key entry has its key column padded with
/// spaces to `w` characters, then its description; other entries are their
/// text.
pub open spec fn help_line(e: (Option<Seq<char>>, Seq<char>), w: nat) -> Seq<char> {
    match e.0 {
        Some(k) => k + spaces(if w > k.len() { (w - k.len()) as nat } else { 0 }) + e.1,
        None => e.1,
    }
}

/// The help text for a set of key bindings, one line per entry; the key
/// columns are padded to the width, in bytes, of the widest one.
pub open spec fn help_text(kb: Keybindings) -> Seq<Seq<char>> {
    let es = help_entries(kb);
    let w = key_width(es, es.len() as int);
    es.map_values(|e: (Option<Seq<char>>, Seq<char>)| help_line(e, w))
}

fn utf8_len_exec(s: &str) -> (r: u128)
    ensures
        r == utf8_len(s@),
        r <= 4 * s@.len(),
{
    let cs = chars_of(s);
    let mut n: u128 = 0;
    let mut i: usize = 0;
    while i < cs.len()
        invariant
            i <= cs@.len(),
            cs@ == s@,
            n == utf8_len(cs@.subrange(0, i as int)),
            n <= 4 * i,
        decreases cs@.len() - i,
    {
        let ghost sub = cs@.subrange(0, i + 1);
        assert(sub.drop_last() =~= cs@.subrange(0, i as int));
        let u = cs[i] as u32;
        let w: u128 = if u < 0x80 { 1 } else if u < 0x800 { 2 } else if u < 0x10000 { 3 } else { 4 };
        n = n + w;
        i = i + 1;
    }
    assert(cs@.subrange(0, i as int) =~= cs@);
    n
}

fn pad_to(k: &String, w: u128) -> (r: String)
    ensures
        r@ == k@ + spaces(if w > k@.len() { (w - k@.len()) as nat } else { 0 }),
{
    let mut out = k.clone();
    let n = chars_of(k.as_str()).len() as u128;
    let mut i = n;
    assert(spaces(0) =~= Seq::<char>::empty());
    assert(out@ =~= k@ + spaces(0));
    while i < w
        invariant
            n == k@.len(),
            n <= i,
            n <= w ==> i <= w,
            n > w ==> i == n,
            out@ == k@ + spaces((i - n) as nat),
        decreases w - i,
    {
        push_char(&mut out, ' ');
        assert(spaces((i + 1 - n) as nat) =~= spaces((i - n) as nat).push(' '));
        i = i + 1;
    }
    proof {
        if w <= k@.len() {
            assert(spaces(0) =~= Seq::<char>::empty());
        }
    }
    out
}

impl Keybindings {
    /// The help text for these bindings (see [`help_text`]).
    pub fn to_help_text(&self) -> (r: Vec<String>)
        ensures
            texts(r@) == help_text(*self),
    {
        let entries = build_entries(self);
        let ghost es = entries_view(entries@);
        let mut width: u128 = 0;
        let mut i: usize = 0;
        while i < entries.len()
            invariant
                i <= entries@.len(),
                es == entries_view(entries@),
                width == key_width(es, i as int),
            decreases entries@.len() - i,
        {
            match &entries[i].0 {
                Some(k) => {
                    let w = utf8_len_exec(k.as_str());
                    assert(es[i as int].0 == Some(k@));
                    if w > width {
                        width = w;
                    }
                }
                None => {
                    assert(es[i as int].0 is None);
                }
            }
            i = i + 1;
        }
        let mut lines: Vec<String> = Vec::new();
        let mut j: usize = 0;
        while j < entries.len()
            invariant
                j <= entries@.len(),
                es == entries_view(entries@),
                width == key_width(es, es.len() as int),
                texts(lines@) == es.subrange(0, j as int).map_values(|e: (Option<Seq<char>>, Seq<char>)| help_line(e, width as nat)),
            decreases entries@.len() - j,
        {
            let ghost before = lines@;
            let line = match &entries[j].0 {
                Some(k) => {
                    let padded = pad_to(k, width);
                    concat(padded.as_str(), entries[j].1.as_str())
                }
                None => entries[j].1.clone(),
            };
            assert(line@ == help_line(es[j as int], width as nat));
            lines.push(line);
            assert(texts(lines@) =~= texts(before).push(line@));
            assert(es.subrange(0, j + 1).map_values(|e: (Option<Seq<char>>, Seq<char>)| help_line(e, width as nat))
                =~= es.subrange(0, j as int).map_values(|e: (Option<Seq<char>>, Seq<char>)| help_line(e, width as nat)).push(help_line(es[j as int], width as nat)));
            j = j + 1;
        }
        assert(es.subrange(0, j as int) =~= es);
        lines
    }
}

} // verus!
