//! The file explorer: two directory panels (host and container or volume),
//! moving between directories, filtering, multi-selection, and the copy,
//! delete, rename and create requests.

use vstd::prelude::*;
use crate::collections::{with, without};
use crate::event::{AppEvent, Command};
use crate::mode::Mode;
use crate::paths::{
    container_parent, container_parent_exec, ends_with_slash, ends_with_slash_exec, is_root, join_dir,
    join_dir_exec, join_plain, join_plain_exec, join_root, join_root_exec, join_strip, join_strip_exec,
    parent_of, parent_of_joined, path_parent, root, root_path, starts_with_slash, starts_with_slash_exec, strip_slash,
    strip_slash_exec, with_slash, with_slash_exec,
};
use crate::reducers::navigation::stack;
use crate::search::{skim_match, Fuzzy};
use crate::state::{AppState, ExplorerEntry, ExplorerFocus, ExplorerPanel, ExplorerState};
use crate::text::{concat, str_eq};

verus! {

/// The panel showing directory `path` afresh: cursor on top, filter and
/// rename cleared; everything else as in `p0`.
pub open spec fn opened_at(p0: ExplorerPanel, p1: ExplorerPanel, path: Seq<char>) -> bool {
    &&& p1 == ExplorerPanel {
        path: p1.path,
        selected: 0,
        filter: p1.filter,
        filter_active: false,
        rename_active: false,
        rename_buffer: p1.rename_buffer,
        ..p0
    }
    &&& p1.path@ == path
    &&& p1.filter@.len() == 0
    &&& p1.rename_buffer@.len() == 0
}

fn open_at(p: &mut ExplorerPanel, path: String)
    ensures
        opened_at(*old(p), *final(p), path@),
{
    p.path = path;
    p.selected = 0;
    p.filter = String::new();
    p.filter_active = false;
    p.rename_active = false;
    p.rename_buffer = String::new();
}

/// The entry under the cursor of a panel: below the ".." row that every
/// directory but the root shows first.
pub open spec fn entry_index(p: ExplorerPanel) -> Option<int> {
    let idx = if p.path@ != root() { if p.selected == 0 { 0 } else { p.selected - 1 } } else { p.selected as int };
    if idx < p.items@.len() { Some(idx) } else { None }
}

fn entry_index_exec(p: &ExplorerPanel) -> (r: Option<usize>)
    ensures
        (match r { Some(i) => Some(i as int), None => None }) == entry_index(*p),
{
    let idx = if !is_root(p.path.as_str()) { if p.selected == 0 { 0 } else { p.selected - 1 } } else { p.selected };
    if idx < p.items.len() { Some(idx) } else { None }
}

/// The entries whose names match the fuzzy filter `q`, in order.
pub open spec fn fuzzy_kept(items: Seq<ExplorerEntry>, q: Seq<char>) -> Seq<ExplorerEntry>
    decreases items.len(),
{
    if items.len() == 0 {
        Seq::empty()
    } else {
        let prev = fuzzy_kept(items.drop_last(), q);
        if skim_match(items.last().name@, q) is Some { prev.push(items.last()) } else { prev }
    }
}

/// The entries a panel shows under filter `q`: all of them when `q` is
/// empty.
pub open spec fn filtered_entries(items: Seq<ExplorerEntry>, q: Seq<char>) -> Seq<ExplorerEntry> {
    if q.len() == 0 { items } else { fuzzy_kept(items, q) }
}

proof fn lemma_fuzzy_kept_is_filter(items: Seq<ExplorerEntry>, q: Seq<char>)
    ensures
        fuzzy_kept(items, q) == items.filter(|e: ExplorerEntry| skim_match(e.name@, q) is Some),
    decreases items.len(),
{
    let pred = |e: ExplorerEntry| skim_match(e.name@, q) is Some;
    if items.len() > 0 {
        lemma_fuzzy_kept_is_filter(items.drop_last(), q);
        assert(items =~= items.drop_last().push(items.last()));
        items.drop_last().lemma_filter_push(items.last(), pred);
    } else {
        assert(items.filter(pred) =~= Seq::<ExplorerEntry>::empty()) by {
            reveal(Seq::filter);
        }
    }
}

/// A typed filter keeps exactly the entries whose name it fuzzily matches:
/// the entry's name is the text searched and the filter is the pattern
/// (`SkimMatcherV2::fuzzy_match(name, filter)`), and the kept entries stay
/// in their order. An empty filter keeps every entry.
pub proof fn lemma_filter_keeps_matching_names(items: Seq<ExplorerEntry>, q: Seq<char>)
    ensures
        q.len() == 0 ==> filtered_entries(items, q) == items,
        q.len() > 0 ==> filtered_entries(items, q) == items.filter(|e: ExplorerEntry| skim_match(e.name@, q) is Some),
        q.len() > 0 ==> forall|k: int| 0 <= k < filtered_entries(items, q).len()
            ==> skim_match((#[trigger] filtered_entries(items, q)[k]).name@, q) is Some
                && items.contains(filtered_entries(items, q)[k]),
        q.len() > 0 ==> forall|i: int| 0 <= i < items.len() && skim_match((#[trigger] items[i]).name@, q) is Some
            ==> filtered_entries(items, q).contains(items[i]),
{
    if q.len() > 0 {
        let pred = |e: ExplorerEntry| skim_match(e.name@, q) is Some;
        lemma_fuzzy_kept_is_filter(items, q);
        let f = items.filter(pred);
        assert forall|k: int| 0 <= k < f.len() implies pred(#[trigger] f[k]) && items.contains(f[k]) by {
            items.lemma_filter_pred(pred, k);
            assert(f.contains(f[k]));
            items.lemma_filter_contains_rev(pred, f[k]);
        }
        assert forall|i: int| 0 <= i < items.len() && pred(#[trigger] items[i]) implies f.contains(items[i]) by {
            items.lemma_filter_contains(pred, i);
        }
    }
}

/// Keeps the entries whose names match `filter` (see [`filtered_entries`]).
pub fn apply_filter(items: &Vec<ExplorerEntry>, filter: &str) -> (r: Vec<ExplorerEntry>)
    ensures
        r@ == filtered_entries(items@, filter@),
{
    if filter.is_empty() {
        return items.clone();
    }
    let fuzzy = Fuzzy::new();
    let mut out: Vec<ExplorerEntry> = Vec::new();
    let mut i: usize = 0;
    while i < items.len()
        invariant
            i <= items@.len(),
            out@ == fuzzy_kept(items@.subrange(0, i as int), filter@),
        decreases items@.len() - i,
    {
        let ghost sub = items@.subrange(0, i + 1);
        assert(sub.drop_last() =~= items@.subrange(0, i as int));
        if fuzzy.score(filter, items[i].name.as_str()).is_some() {
            out.push(items[i].clone());
        }
        i = i + 1;
    }
    assert(items@.subrange(0, i as int) =~= items@);
    out
}

/// The volume the container panel browses, when the top view is a volume
/// explorer.
pub open spec fn vol_of(m: Mode) -> Option<String> {
    match m {
        Mode::ExplorerVolume(_, name) => Some(name),
        _ => None,
    }
}

/// Whether `c` lists directory `path` of the container panel: of the volume
/// when one is browsed, else of the container.
pub open spec fn lists_container_dir(vol: Option<String>, cid: String, path: Seq<char>, c: Command) -> bool {
    match vol {
        Some(name) => c matches Command::ListVolumeDir(n, p) && n == name && p@ == path,
        None => c matches Command::ListContainerDir(id, p) && id == cid && p@ == path,
    }
}

fn list_container_cmd(vol: &Option<String>, cid: &String, path: String) -> (r: Command)
    ensures
        lists_container_dir(*vol, *cid, path@, r),
{
    match vol {
        Some(name) => Command::ListVolumeDir(name.clone(), path),
        None => Command::ListContainerDir(cid.clone(), path),
    }
}

/// Whether `c` lists host directory `path`.
pub open spec fn lists_host_dir(path: Seq<char>, c: Command) -> bool {
    c matches Command::ListHostDir(p) && p@ == path
}

/// The selection of a panel after toggling the entry under its cursor.
pub open spec fn toggled_selection(p: ExplorerPanel) -> Seq<Seq<char>> {
    match entry_index(p) {
        Some(i) => {
            let name = p.items@[i].name@;
            if p.selected_names@.contains(name) { without(p.selected_names@, name) } else { with(p.selected_names@, name) }
        },
        None => p.selected_names@,
    }
}

/// The copy requests for the selected entries: from the host panel when it
/// has a selection, else from the container panel.
pub open spec fn copy_selected_ok(e: ExplorerState, cmds: Seq<Command>) -> bool {
    if e.host.selected_names@.len() > 0 {
        let names = e.host.selected_names@;
        &&& cmds.len() == names.len()
        &&& forall|i: int| 0 <= i < names.len() ==> ((#[trigger] cmds[i]) matches Command::CopyToContainer(id, src, dst)
            && id == e.container_id && src@ == join_strip(e.host.path@, names[i]) && dst@ == with_slash(e.container.path@))
    } else if e.container.selected_names@.len() > 0 {
        let names = e.container.selected_names@;
        &&& cmds.len() == names.len()
        &&& forall|i: int| 0 <= i < names.len() ==> ((#[trigger] cmds[i]) matches Command::CopyFromContainer(id, src, dst)
            && id == e.container_id && src@ == join_strip(e.container.path@, names[i]) && dst == e.host.path)
    } else {
        cmds.len() == 0
    }
}

/// The delete requests for the selected entries: of the host panel when it
/// has a selection, else of the container panel.
pub open spec fn delete_selected_ok(e: ExplorerState, cmds: Seq<Command>) -> bool {
    if e.host.selected_names@.len() > 0 {
        let names = e.host.selected_names@;
        &&& cmds.len() == names.len()
        &&& forall|i: int| 0 <= i < names.len() ==> ((#[trigger] cmds[i]) matches Command::DeleteHostFile(p)
            && p@ == join_plain(e.host.path@, names[i]))
    } else if e.container.selected_names@.len() > 0 {
        let names = e.container.selected_names@;
        &&& cmds.len() == names.len()
        &&& forall|i: int| 0 <= i < names.len() ==> ((#[trigger] cmds[i]) matches Command::DeleteContainerFile(id, p)
            && id == e.container_id && p@ == join_strip(e.container.path@, names[i]))
    } else {
        cmds.len() == 0
    }
}

/// The name typed into a create prompt, without a trailing '/', and
/// whether that '/' asked for a directory.
pub open spec fn create_target(name: Seq<char>) -> (Seq<char>, bool) {
    if ends_with_slash(name) { (name.drop_last(), true) } else { (name, false) }
}

/// The directory a goto prompt leads to: "/" when nothing was typed.
pub open spec fn goto_target(typed: Seq<char>) -> Seq<char> {
    if typed.len() == 0 { root() } else { typed }
}

/// The directory a container reports as its working directory, as the
/// container panel opens it: "/" unless it is absolute, with a trailing '/'.
pub open spec fn working_dir_path(wd: Seq<char>) -> Seq<char> {
    if wd.len() == 0 || !starts_with_slash(wd) { root() } else { with_slash(wd) }
}

/// The message shown while an entry is being copied.
pub open spec fn copying_msg(name: Seq<char>) -> Seq<char> {
    "Copying "@ + name + "..."@
}

/// The tick two ticks from `t`, wrapping around.
pub open spec fn two_ticks_after(t: u64) -> u64 {
    if t + 2 > u64::MAX { (t + 2 - u64::MAX - 1) as u64 } else { (t + 2) as u64 }
}

/// A panel whose listing of `entries` just arrived: shown through its
/// filter, cursor on top, no longer loading.
pub open spec fn listed(p0: ExplorerPanel, entries: Seq<ExplorerEntry>, p1: ExplorerPanel) -> bool {
    &&& p1 == ExplorerPanel { all_items: p1.all_items, items: p1.items, selected: 0, loading: false, ..p0 }
    &&& p1.all_items@ == entries
    &&& p1.items@ == filtered_entries(entries, p0.filter@)
}

/// How the panels of the explorer change and which requests go out for the
/// explorer's own events; `vol` is the browsed volume, if any, and `tick`
/// the current tick.
pub open spec fn explorer_step(e0: ExplorerState, vol: Option<String>, tick: u64, event: AppEvent, e1: ExplorerState, cmds: Seq<Command>) -> bool {
    let h = e0.host;
    let c = e0.container;
    match event {
        AppEvent::ExplorerHostToggleSelect => {
            &&& e1 == ExplorerState { host: ExplorerPanel { selected_names: e1.host.selected_names, ..h }, ..e0 }
            &&& e1.host.selected_names@ == toggled_selection(h)
            &&& cmds.len() == 0
        },
        AppEvent::ExplorerContainerToggleSelect => {
            &&& e1 == ExplorerState { container: ExplorerPanel { selected_names: e1.container.selected_names, ..c }, ..e0 }
            &&& e1.container.selected_names@ == toggled_selection(c)
            &&& cmds.len() == 0
        },
        AppEvent::ExplorerCopySelected => e1 == e0 && copy_selected_ok(e0, cmds),
        AppEvent::ExplorerDeleteSelected => e1 == e0 && delete_selected_ok(e0, cmds),
        AppEvent::ExplorerSelect => {
            &&& e1 == ExplorerState { focus: if e0.focus == ExplorerFocus::Left { ExplorerFocus::Right } else { ExplorerFocus::Left }, ..e0 }
            &&& cmds.len() == 0
        },
        AppEvent::ExplorerHostSelect(idx) => e1 == ExplorerState { host: ExplorerPanel { selected: idx, ..h }, ..e0 } && cmds.len() == 0,
        AppEvent::ExplorerContainerSelect(idx) => e1 == ExplorerState { container: ExplorerPanel { selected: idx, ..c }, ..e0 } && cmds.len() == 0,
        AppEvent::ExplorerHostGoUp => parent_of_joined(h.path@) && match path_parent(h.path@) {
            Some(parent) if parent.len() > 0 => {
                &&& e1 == ExplorerState { host: e1.host, ..e0 }
                &&& opened_at(h, e1.host, parent)
                &&& cmds.len() == 1 && lists_host_dir(parent, cmds[0])
            },
            _ => e1 == e0 && cmds.len() == 0,
        },
        AppEvent::ExplorerContainerGoUp => if c.path@ == root() {
            e1 == e0 && cmds.len() == 0
        } else {
            let parent = container_parent(c.path@);
            &&& e1 == ExplorerState { container: e1.container, ..e0 }
            &&& opened_at(c, e1.container, parent)
            &&& cmds.len() == 1 && lists_container_dir(vol, e0.container_id, parent, cmds[0])
        },
        AppEvent::ExplorerHostEnterDir(name) => {
            let target = join_root(h.path@, name@);
            &&& e1 == ExplorerState { host: e1.host, ..e0 }
            &&& opened_at(h, e1.host, target)
            &&& cmds.len() == 1 && lists_host_dir(target, cmds[0])
        },
        AppEvent::ExplorerContainerEnterDir(name) => {
            let target = join_dir(c.path@, name@).push('/');
            &&& e1 == ExplorerState { container: e1.container, ..e0 }
            &&& opened_at(c, e1.container, target)
            &&& cmds.len() == 1 && lists_container_dir(vol, e0.container_id, target, cmds[0])
        },
        AppEvent::ExplorerHostRefresh => e1 == e0 && cmds.len() == 1 && lists_host_dir(h.path@, cmds[0]),
        AppEvent::ExplorerContainerRefresh => e1 == e0 && cmds.len() == 1 && lists_container_dir(vol, e0.container_id, c.path@, cmds[0]),
        AppEvent::ExplorerHostActivateFilter => e1 == ExplorerState { host: ExplorerPanel { filter_active: true, ..h }, ..e0 } && cmds.len() == 0,
        AppEvent::ExplorerContainerActivateFilter => e1 == ExplorerState { container: ExplorerPanel { filter_active: true, ..c }, ..e0 } && cmds.len() == 0,
        AppEvent::ExplorerFilter(q) => {
            &&& cmds.len() == 0
            &&& if q@.len() == 0 {
                &&& e1 == ExplorerState {
                    host: ExplorerPanel { filter: if h.filter_active { q } else { h.filter }, filter_active: false, items: e1.host.items, ..h },
                    container: ExplorerPanel {
                        filter: if !h.filter_active && c.filter_active { q } else { c.filter },
                        filter_active: false,
                        items: e1.container.items,
                        ..c
                    },
                    ..e0
                }
                &&& e1.host.items@ == h.all_items@
                &&& e1.container.items@ == c.all_items@
            } else if h.filter_active {
                &&& e1 == ExplorerState { host: ExplorerPanel { filter: q, items: e1.host.items, ..h }, ..e0 }
                &&& e1.host.items@ == fuzzy_kept(h.all_items@, q@)
            } else if c.filter_active {
                &&& e1 == ExplorerState { container: ExplorerPanel { filter: q, items: e1.container.items, ..c }, ..e0 }
                &&& e1.container.items@ == fuzzy_kept(c.all_items@, q@)
            } else {
                e1 == e0
            }
        },
        AppEvent::ExplorerFilterSubmit => e1 == ExplorerState {
            host: ExplorerPanel { filter_active: false, ..h },
            container: ExplorerPanel { filter_active: false, ..c },
            ..e0
        } && cmds.len() == 0,
        AppEvent::ExplorerHostActivateRename => cmds.len() == 0 && match entry_index(h) {
            Some(i) => e1 == ExplorerState { host: ExplorerPanel { rename_buffer: h.items@[i].name, rename_active: true, ..h }, ..e0 },
            None => e1 == e0,
        },
        AppEvent::ExplorerContainerActivateRename => cmds.len() == 0 && match entry_index(c) {
            Some(i) => e1 == ExplorerState { container: ExplorerPanel { rename_buffer: c.items@[i].name, rename_active: true, ..c }, ..e0 },
            None => e1 == e0,
        },
        AppEvent::ExplorerRenameUpdate(q) => cmds.len() == 0 && if h.rename_active {
            e1 == ExplorerState { host: ExplorerPanel { rename_buffer: q, ..h }, ..e0 }
        } else if c.rename_active {
            e1 == ExplorerState { container: ExplorerPanel { rename_buffer: q, ..c }, ..e0 }
        } else {
            e1 == e0
        },
        AppEvent::ExplorerRenameCancel => {
            &&& e1 == ExplorerState {
                host: ExplorerPanel { rename_active: false, rename_buffer: e1.host.rename_buffer, ..h },
                container: ExplorerPanel { rename_active: false, rename_buffer: e1.container.rename_buffer, ..c },
                ..e0
            }
            &&& e1.host.rename_buffer@ == (if h.rename_active { Seq::empty() } else { h.rename_buffer@ })
            &&& e1.container.rename_buffer@ == (if c.rename_active { Seq::empty() } else { c.rename_buffer@ })
            &&& cmds.len() == 0
        },
        AppEvent::ExplorerHostActivateCreate => {
            &&& e1 == ExplorerState { host: ExplorerPanel { create_buffer: e1.host.create_buffer, create_active: true, ..h }, ..e0 }
            &&& e1.host.create_buffer@.len() == 0
            &&& cmds.len() == 0
        },
        AppEvent::ExplorerContainerActivateCreate => {
            &&& e1 == ExplorerState { container: ExplorerPanel { create_buffer: e1.container.create_buffer, create_active: true, ..c }, ..e0 }
            &&& e1.container.create_buffer@.len() == 0
            &&& cmds.len() == 0
        },
        AppEvent::ExplorerCreateUpdate(q) => cmds.len() == 0 && if h.create_active {
            e1 == ExplorerState { host: ExplorerPanel { create_buffer: q, ..h }, ..e0 }
        } else if c.create_active {
            e1 == ExplorerState { container: ExplorerPanel { create_buffer: q, ..c }, ..e0 }
        } else {
            e1 == e0
        },
        AppEvent::ExplorerCreateCancel => {
            &&& e1 == ExplorerState {
                host: ExplorerPanel { create_active: false, create_buffer: e1.host.create_buffer, ..h },
                container: ExplorerPanel { create_active: false, create_buffer: e1.container.create_buffer, ..c },
                ..e0
            }
            &&& e1.host.create_buffer@ == (if h.create_active { Seq::empty() } else { h.create_buffer@ })
            &&& e1.container.create_buffer@ == (if c.create_active { Seq::empty() } else { c.create_buffer@ })
            &&& cmds.len() == 0
        },
        AppEvent::ExplorerCreateSubmit => if h.create_active {
            let t = create_target(h.create_buffer@);
            &&& e1 == ExplorerState { host: ExplorerPanel { create_active: false, create_buffer: e1.host.create_buffer, ..h }, ..e0 }
            &&& e1.host.create_buffer@.len() == 0
            &&& if h.create_buffer@.len() == 0 {
                cmds.len() == 0
            } else {
                cmds.len() == 1 && (cmds[0] matches Command::CreateHostFile(p, d) && p@ == join_root(h.path@, t.0) && d == t.1)
            }
        } else if c.create_active {
            let t = create_target(c.create_buffer@);
            &&& e1 == ExplorerState { container: ExplorerPanel { create_active: false, create_buffer: e1.container.create_buffer, ..c }, ..e0 }
            &&& e1.container.create_buffer@.len() == 0
            &&& if c.create_buffer@.len() == 0 {
                cmds.len() == 0
            } else {
                let full = if c.path@ == root() { root() + t.0 } else { strip_slash(c.path@) + root() + t.0 };
                cmds.len() == 1 && (cmds[0] matches Command::CreateContainerFile(id, p, d)
                    && id == e0.container_id && p@ == full && d == t.1)
            }
        } else {
            e1 == e0 && cmds.len() == 0
        },
        AppEvent::ExplorerHostActivateGoto => e1 == ExplorerState { host: ExplorerPanel { goto_buffer: h.path, goto_active: true, ..h }, ..e0 } && cmds.len() == 0,
        AppEvent::ExplorerContainerActivateGoto => e1 == ExplorerState { container: ExplorerPanel { goto_buffer: c.path, goto_active: true, ..c }, ..e0 } && cmds.len() == 0,
        AppEvent::ExplorerGotoUpdate(q) => cmds.len() == 0 && if h.goto_active {
            e1 == ExplorerState { host: ExplorerPanel { goto_buffer: q, ..h }, ..e0 }
        } else if c.goto_active {
            e1 == ExplorerState { container: ExplorerPanel { goto_buffer: q, ..c }, ..e0 }
        } else {
            e1 == e0
        },
        AppEvent::ExplorerGotoCancel => {
            &&& e1 == ExplorerState {
                host: ExplorerPanel { goto_active: false, goto_buffer: e1.host.goto_buffer, ..h },
                container: ExplorerPanel { goto_active: false, goto_buffer: e1.container.goto_buffer, ..c },
                ..e0
            }
            &&& e1.host.goto_buffer@ == (if h.goto_active { Seq::empty() } else { h.goto_buffer@ })
            &&& e1.container.goto_buffer@ == (if c.goto_active { Seq::empty() } else { c.goto_buffer@ })
            &&& cmds.len() == 0
        },
        AppEvent::ExplorerGotoSubmit => if h.goto_active {
            let target = goto_target(h.goto_buffer@);
            &&& e1 == ExplorerState { host: e1.host, ..e0 }
            &&& opened_at(ExplorerPanel { goto_active: false, goto_buffer: e1.host.goto_buffer, loading: true, ..h }, e1.host, target)
            &&& e1.host.goto_buffer@.len() == 0
            &&& cmds.len() == 1 && lists_host_dir(target, cmds[0])
        } else if c.goto_active {
            let target = with_slash(goto_target(c.goto_buffer@));
            &&& e1 == ExplorerState { container: e1.container, ..e0 }
            &&& opened_at(ExplorerPanel { goto_active: false, goto_buffer: e1.container.goto_buffer, loading: true, ..c }, e1.container, target)
            &&& e1.container.goto_buffer@.len() == 0
            &&& cmds.len() == 1 && lists_container_dir(vol, e0.container_id, target, cmds[0])
        } else {
            e1 == e0 && cmds.len() == 0
        },
        AppEvent::ExplorerRenameSubmit => if h.rename_active {
            &&& e1 == ExplorerState { host: ExplorerPanel { rename_active: false, rename_buffer: e1.host.rename_buffer, ..h }, ..e0 }
            &&& e1.host.rename_buffer@.len() == 0
            &&& match entry_index(h) {
                Some(i) if h.rename_buffer@.len() > 0 && h.rename_buffer@ != h.items@[i].name@ => {
                    cmds.len() == 1 && (cmds[0] matches Command::RenameHostFile(from, to)
                        && from@ == join_root(h.path@, h.items@[i].name@) && to@ == join_root(h.path@, h.rename_buffer@))
                },
                _ => cmds.len() == 0,
            }
        } else if c.rename_active {
            &&& e1 == ExplorerState { container: ExplorerPanel { rename_active: false, rename_buffer: e1.container.rename_buffer, ..c }, ..e0 }
            &&& e1.container.rename_buffer@.len() == 0
            &&& match entry_index(c) {
                Some(i) if c.rename_buffer@.len() > 0 && c.rename_buffer@ != c.items@[i].name@ => {
                    cmds.len() == 1 && (cmds[0] matches Command::RenameContainerFile(id, from, to) && id == e0.container_id
                        && from@ == join_root(c.path@, c.items@[i].name@) && to@ == join_root(c.path@, c.rename_buffer@))
                },
                _ => cmds.len() == 0,
            }
        } else {
            e1 == e0 && cmds.len() == 0
        },
        AppEvent::ExplorerContainerDirUpdated(cid, path, entries) => cmds.len() == 0 && if e0.container_id@ == cid@ && c.path@ == path@ {
            &&& e1 == ExplorerState { container: e1.container, ..e0 }
            &&& listed(c, entries@, e1.container)
        } else {
            e1 == e0
        },
        AppEvent::ExplorerHostDirUpdated(path, entries) => cmds.len() == 0 && if h.path@ == path@ {
            &&& e1 == ExplorerState { host: e1.host, ..e0 }
            &&& listed(h, entries@, e1.host)
        } else {
            e1 == e0
        },
        AppEvent::ContainerWorkingDir(cid, wd) => if e0.container_id@ == cid@ {
            let target = working_dir_path(wd@);
            &&& e1 == ExplorerState { container: ExplorerPanel { path: e1.container.path, selected: 0, loading: true, ..c }, ..e0 }
            &&& e1.container.path@ == target
            &&& cmds.len() == 1 && (cmds[0] matches Command::ListContainerDir(id, p) && id == cid && p@ == target)
        } else {
            e1 == e0 && cmds.len() == 0
        },
        AppEvent::ExplorerCopyToContainer => match entry_index(h) {
            Some(i) => {
                let name = h.items@[i].name@;
                &&& e1 == ExplorerState { transfer_in_progress: true, transfer_message: e1.transfer_message, transfer_error: None, ..e0 }
                &&& e1.transfer_message matches Some(m) && m@ == copying_msg(name)
                &&& cmds.len() == 1 && (cmds[0] matches Command::CopyToContainer(id, src, dst) && id == e0.container_id
                    && src@ == join_root(h.path@, name) && dst@ == with_slash(c.path@))
            },
            None => e1 == e0 && cmds.len() == 0,
        },
        AppEvent::ExplorerCopyFromContainer => match entry_index(c) {
            Some(i) => {
                let name = c.items@[i].name@;
                &&& e1 == ExplorerState { transfer_in_progress: true, transfer_message: e1.transfer_message, transfer_error: None, ..e0 }
                &&& e1.transfer_message matches Some(m) && m@ == copying_msg(name)
                &&& cmds.len() == 1 && (cmds[0] matches Command::CopyFromContainer(id, src, dst) && id == e0.container_id
                    && src@ == join_dir(c.path@, name) && dst == h.path)
            },
            None => e1 == e0 && cmds.len() == 0,
        },
        AppEvent::ExplorerTransferComplete(msg) => {
            &&& e1 == ExplorerState {
                transfer_in_progress: false,
                transfer_message: Some(msg),
                transfer_error: None,
                transfer_message_clear_tick: two_ticks_after(tick),
                ..e0
            }
            &&& cmds.len() == 2 && lists_host_dir(h.path@, cmds[0])
                && (cmds[1] matches Command::ListContainerDir(id, p) && id == e0.container_id && p == c.path)
        },
        AppEvent::ExplorerTransferError(msg) => {
            &&& e1 == ExplorerState {
                transfer_in_progress: false,
                transfer_error: Some(msg),
                transfer_message: None,
                transfer_error_clear_tick: two_ticks_after(tick),
                ..e0
            }
            &&& cmds.len() == 0
        },
        _ => e1 == e0 && cmds.len() == 0,
    }
}

/// The explorer reducer's effect on the whole state: only the explorer
/// changes (see [`explorer_step`]).
pub open spec fn explorer_post(s0: AppState, event: AppEvent, s1: AppState, cmds: Seq<Command>) -> bool {
    &&& s1 == AppState { explorer: s1.explorer, ..s0 }
    &&& explorer_step(s0.explorer, vol_of(stack(s0).last()), s0.tick_count, event, s1.explorer, cmds)
}

fn toggle_entry(p: &mut ExplorerPanel)
    ensures
        *final(p) == (ExplorerPanel { selected_names: final(p).selected_names, ..*old(p) }),
        final(p).selected_names@ == toggled_selection(*old(p)),
{
    if let Some(i) = entry_index_exec(p) {
        let name = p.items[i].name.clone();
        if p.selected_names.contains(name.as_str()) {
            p.selected_names.remove(name.as_str());
        } else {
            p.selected_names.insert(name);
        }
    }
}

fn copy_selected(e: &ExplorerState) -> (r: Vec<Command>)
    ensures
        copy_selected_ok(*e, r@),
{
    let mut commands: Vec<Command> = Vec::new();
    let is_host = !e.host.selected_names.is_empty();
    if !is_host && e.container.selected_names.is_empty() {
        return commands;
    }
    let names = if is_host { e.host.selected_names.to_vec() } else { e.container.selected_names.to_vec() };
    let ghost nv = crate::config::texts(names@);
    let mut i: usize = 0;
    while i < names.len()
        invariant
            i <= names@.len(),
            nv == crate::config::texts(names@),
            is_host == (e.host.selected_names@.len() > 0),
            nv == (if is_host { e.host.selected_names@ } else { e.container.selected_names@ }),
            commands@.len() == i,
            forall|k: int| 0 <= k < i ==> if is_host {
                ((#[trigger] commands@[k]) matches Command::CopyToContainer(id, src, dst)
                    && id == e.container_id && src@ == join_strip(e.host.path@, nv[k]) && dst@ == with_slash(e.container.path@))
            } else {
                ((#[trigger] commands@[k]) matches Command::CopyFromContainer(id, src, dst)
                    && id == e.container_id && src@ == join_strip(e.container.path@, nv[k]) && dst == e.host.path)
            },
        decreases names@.len() - i,
    {
        assert(names@[i as int]@ == nv[i as int]);
        if is_host {
            let full = join_strip_exec(e.host.path.as_str(), names[i].as_str());
            let dest = with_slash_exec(e.container.path.as_str());
            commands.push(Command::CopyToContainer(e.container_id.clone(), full, dest));
        } else {
            let full = join_strip_exec(e.container.path.as_str(), names[i].as_str());
            commands.push(Command::CopyFromContainer(e.container_id.clone(), full, e.host.path.clone()));
        }
        i = i + 1;
    }
    commands
}

fn delete_selected(e: &ExplorerState) -> (r: Vec<Command>)
    ensures
        delete_selected_ok(*e, r@),
{
    let mut commands: Vec<Command> = Vec::new();
    let is_host = !e.host.selected_names.is_empty();
    if !is_host && e.container.selected_names.is_empty() {
        return commands;
    }
    let names = if is_host { e.host.selected_names.to_vec() } else { e.container.selected_names.to_vec() };
    let ghost nv = crate::config::texts(names@);
    let mut i: usize = 0;
    while i < names.len()
        invariant
            i <= names@.len(),
            nv == crate::config::texts(names@),
            is_host == (e.host.selected_names@.len() > 0),
            nv == (if is_host { e.host.selected_names@ } else { e.container.selected_names@ }),
            commands@.len() == i,
            forall|k: int| 0 <= k < i ==> if is_host {
                ((#[trigger] commands@[k]) matches Command::DeleteHostFile(p) && p@ == join_plain(e.host.path@, nv[k]))
            } else {
                ((#[trigger] commands@[k]) matches Command::DeleteContainerFile(id, p)
                    && id == e.container_id && p@ == join_strip(e.container.path@, nv[k]))
            },
        decreases names@.len() - i,
    {
        assert(names@[i as int]@ == nv[i as int]);
        if is_host {
            let full = join_plain_exec(e.host.path.as_str(), names[i].as_str());
            commands.push(Command::DeleteHostFile(full));
        } else {
            let full = join_strip_exec(e.container.path.as_str(), names[i].as_str());
            commands.push(Command::DeleteContainerFile(e.container_id.clone(), full));
        }
        i = i + 1;
    }
    commands
}

fn step_select(e: &mut ExplorerState, vol: &Option<String>, tick: u64, event: &AppEvent) -> (r: Vec<Command>)
    requires
        event is ExplorerHostToggleSelect || event is ExplorerContainerToggleSelect || event is ExplorerCopySelected
            || event is ExplorerDeleteSelected || event is ExplorerSelect || event is ExplorerHostSelect
            || event is ExplorerContainerSelect,
    ensures
        explorer_step(*old(e), *vol, tick, *event, *final(e), r@),
{
    match event {
        AppEvent::ExplorerHostToggleSelect => toggle_entry(&mut e.host),
        AppEvent::ExplorerContainerToggleSelect => toggle_entry(&mut e.container),
        AppEvent::ExplorerCopySelected => return copy_selected(e),
        AppEvent::ExplorerDeleteSelected => return delete_selected(e),
        AppEvent::ExplorerSelect => {
            e.focus = match e.focus {
                ExplorerFocus::Left => ExplorerFocus::Right,
                ExplorerFocus::Right => ExplorerFocus::Left,
            };
        }
        AppEvent::ExplorerHostSelect(idx) => e.host.selected = *idx,
        AppEvent::ExplorerContainerSelect(idx) => e.container.selected = *idx,
        _ => {}
    }
    Vec::new()
}

/// Entering a directory of the host panel and going up again comes back to
/// where the panel was, when the panel shows a plain absolute directory and
/// the entered name is a plain component: the panel shows that directory
/// again, with the cursor on top, and it is listed afresh.
pub proof fn lemma_host_enter_then_up(
    e0: ExplorerState,
    vol: Option<String>,
    tick: u64,
    name: String,
    e1: ExplorerState,
    cmds1: Seq<Command>,
    e2: ExplorerState,
    cmds2: Seq<Command>,
)
    requires
        crate::paths::is_host_dir(e0.host.path@),
        crate::paths::is_component(name@),
        explorer_step(e0, vol, tick, AppEvent::ExplorerHostEnterDir(name), e1, cmds1),
        explorer_step(e1, vol, tick, AppEvent::ExplorerHostGoUp, e2, cmds2),
    ensures
        cmds1.len() == 1 && lists_host_dir(join_root(e0.host.path@, name@), cmds1[0]),
        e2.host.path@ == e0.host.path@,
        e2.host.selected == 0,
        cmds2.len() == 1 && lists_host_dir(e0.host.path@, cmds2[0]),
{
    let d = e0.host.path@;
    assert(e1.host.path@ == join_root(d, name@));
    assert(path_parent(e1.host.path@) == Some(d));
    if d != root() {
        assert(d.len() > 0);
    } else {
        assert(d.len() == 1);
    }
}

fn one(c: Command) -> (r: Vec<Command>)
    ensures
        r@ == seq![c],
{
    let mut v: Vec<Command> = Vec::new();
    v.push(c);
    assert(v@ =~= seq![c]);
    v
}

fn step_move(e: &mut ExplorerState, vol: &Option<String>, tick: u64, event: &AppEvent) -> (r: Vec<Command>)
    requires
        event is ExplorerHostGoUp || event is ExplorerContainerGoUp || event is ExplorerHostEnterDir
            || event is ExplorerContainerEnterDir || event is ExplorerHostRefresh || event is ExplorerContainerRefresh,
    ensures
        explorer_step(*old(e), *vol, tick, *event, *final(e), r@),
{
    match event {
        AppEvent::ExplorerHostGoUp => {
            match parent_of(e.host.path.as_str()) {
                Some(parent) => {
                    if !parent.as_str().is_empty() {
                        let target = if is_root(parent.as_str()) { root_path() } else { parent };
                        open_at(&mut e.host, target.clone());
                        return one(Command::ListHostDir(target));
                    }
                }
                None => {}
            }
            Vec::new()
        }
        AppEvent::ExplorerContainerGoUp => {
            if is_root(e.container.path.as_str()) {
                return Vec::new();
            }
            let parent = container_parent_exec(e.container.path.as_str());
            open_at(&mut e.container, parent.clone());
            one(list_container_cmd(vol, &e.container_id, parent))
        }
        AppEvent::ExplorerHostEnterDir(name) => {
            let target = join_root_exec(e.host.path.as_str(), name.as_str());
            open_at(&mut e.host, target.clone());
            one(Command::ListHostDir(target))
        }
        AppEvent::ExplorerContainerEnterDir(name) => {
            let joined = join_dir_exec(e.container.path.as_str(), name.as_str());
            let target = concat(joined.as_str(), "/");
            proof {
                reveal_strlit("/");
                assert(target@ =~= joined@.push('/'));
            }
            open_at(&mut e.container, target.clone());
            one(list_container_cmd(vol, &e.container_id, target))
        }
        AppEvent::ExplorerHostRefresh => one(Command::ListHostDir(e.host.path.clone())),
        AppEvent::ExplorerContainerRefresh => one(list_container_cmd(vol, &e.container_id, e.container.path.clone())),
        _ => Vec::new(),
    }
}

fn filter_panels(e: &mut ExplorerState, q: &String)
    ensures
        explorer_step(*old(e), None, 0, AppEvent::ExplorerFilter(*q), *final(e), Seq::empty()),
{
    if q.as_str().is_empty() {
        if e.host.filter_active {
            e.host.filter = q.clone();
        } else if e.container.filter_active {
            e.container.filter = q.clone();
        }
        e.host.filter_active = false;
        e.container.filter_active = false;
        e.host.items = e.host.all_items.clone();
        e.container.items = e.container.all_items.clone();
    } else if e.host.filter_active {
        e.host.filter = q.clone();
        e.host.items = apply_filter(&e.host.all_items, q.as_str());
    } else if e.container.filter_active {
        e.container.filter = q.clone();
        e.container.items = apply_filter(&e.container.all_items, q.as_str());
    }
}

fn step_filter(e: &mut ExplorerState, vol: &Option<String>, tick: u64, event: &AppEvent) -> (r: Vec<Command>)
    requires
        event is ExplorerHostActivateFilter || event is ExplorerContainerActivateFilter || event is ExplorerFilter
            || event is ExplorerFilterSubmit,
    ensures
        explorer_step(*old(e), *vol, tick, *event, *final(e), r@),
{
    match event {
        AppEvent::ExplorerHostActivateFilter => e.host.filter_active = true,
        AppEvent::ExplorerContainerActivateFilter => e.container.filter_active = true,
        AppEvent::ExplorerFilter(q) => filter_panels(e, q),
        AppEvent::ExplorerFilterSubmit => {
            e.host.filter_active = false;
            e.container.filter_active = false;
        }
        _ => {}
    }
    Vec::new()
}

fn start_rename(p: &mut ExplorerPanel)
    ensures
        match entry_index(*old(p)) {
            Some(i) => *final(p) == (ExplorerPanel { rename_buffer: old(p).items@[i].name, rename_active: true, ..*old(p) }),
            None => *final(p) == *old(p),
        },
{
    if let Some(i) = entry_index_exec(p) {
        p.rename_buffer = p.items[i].name.clone();
        p.rename_active = true;
    }
}

fn step_prompt(e: &mut ExplorerState, vol: &Option<String>, tick: u64, event: &AppEvent) -> (r: Vec<Command>)
    requires
        event is ExplorerHostActivateRename || event is ExplorerContainerActivateRename || event is ExplorerRenameUpdate
            || event is ExplorerRenameCancel || event is ExplorerHostActivateCreate || event is ExplorerContainerActivateCreate
            || event is ExplorerCreateUpdate || event is ExplorerCreateCancel || event is ExplorerHostActivateGoto
            || event is ExplorerContainerActivateGoto || event is ExplorerGotoUpdate || event is ExplorerGotoCancel,
    ensures
        explorer_step(*old(e), *vol, tick, *event, *final(e), r@),
{
    match event {
        AppEvent::ExplorerHostActivateRename => start_rename(&mut e.host),
        AppEvent::ExplorerContainerActivateRename => start_rename(&mut e.container),
        AppEvent::ExplorerRenameUpdate(q) => {
            if e.host.rename_active {
                e.host.rename_buffer = q.clone();
            } else if e.container.rename_active {
                e.container.rename_buffer = q.clone();
            }
        }
        AppEvent::ExplorerRenameCancel => {
            if e.host.rename_active {
                e.host.rename_active = false;
                e.host.rename_buffer = String::new();
            }
            if e.container.rename_active {
                e.container.rename_active = false;
                e.container.rename_buffer = String::new();
            }
        }
        AppEvent::ExplorerHostActivateCreate => {
            e.host.create_buffer = String::new();
            e.host.create_active = true;
        }
        AppEvent::ExplorerContainerActivateCreate => {
            e.container.create_buffer = String::new();
            e.container.create_active = true;
        }
        AppEvent::ExplorerCreateUpdate(q) => {
            if e.host.create_active {
                e.host.create_buffer = q.clone();
            } else if e.container.create_active {
                e.container.create_buffer = q.clone();
            }
        }
        AppEvent::ExplorerCreateCancel => {
            if e.host.create_active {
                e.host.create_active = false;
                e.host.create_buffer = String::new();
            }
            if e.container.create_active {
                e.container.create_active = false;
                e.container.create_buffer = String::new();
            }
        }
        AppEvent::ExplorerHostActivateGoto => {
            e.host.goto_buffer = e.host.path.clone();
            e.host.goto_active = true;
        }
        AppEvent::ExplorerContainerActivateGoto => {
            e.container.goto_buffer = e.container.path.clone();
            e.container.goto_active = true;
        }
        AppEvent::ExplorerGotoUpdate(q) => {
            if e.host.goto_active {
                e.host.goto_buffer = q.clone();
            } else if e.container.goto_active {
                e.container.goto_buffer = q.clone();
            }
        }
        AppEvent::ExplorerGotoCancel => {
            if e.host.goto_active {
                e.host.goto_active = false;
                e.host.goto_buffer = String::new();
            }
            if e.container.goto_active {
                e.container.goto_active = false;
                e.container.goto_buffer = String::new();
            }
        }
        _ => {}
    }
    Vec::new()
}

fn create_target_exec(name: &str) -> (r: (String, bool))
    ensures
        (r.0@, r.1) == create_target(name@),
{
    if ends_with_slash_exec(name) {
        (strip_slash_exec(name), true)
    } else {
        (crate::text::owned(name), false)
    }
}

fn submit_create(e: &mut ExplorerState) -> (r: Vec<Command>)
    ensures
        explorer_step(*old(e), None, 0, AppEvent::ExplorerCreateSubmit, *final(e), r@),
{
    if e.host.create_active {
        let mut name = String::new();
        std::mem::swap(&mut name, &mut e.host.create_buffer);
        e.host.create_active = false;
        if !name.as_str().is_empty() {
            let (target, is_dir) = create_target_exec(name.as_str());
            let full = join_root_exec(e.host.path.as_str(), target.as_str());
            return one(Command::CreateHostFile(full, is_dir));
        }
    } else if e.container.create_active {
        let mut name = String::new();
        std::mem::swap(&mut name, &mut e.container.create_buffer);
        e.container.create_active = false;
        if !name.as_str().is_empty() {
            let (target, is_dir) = create_target_exec(name.as_str());
            let full = if is_root(e.container.path.as_str()) {
                concat("/", target.as_str())
            } else {
                let p = strip_slash_exec(e.container.path.as_str());
                let a = concat(p.as_str(), "/");
                concat(a.as_str(), target.as_str())
            };
            proof {
                reveal_strlit("/");
                assert("/"@ =~= root());
            }
            return one(Command::CreateContainerFile(e.container_id.clone(), full, is_dir));
        }
    }
    Vec::new()
}

fn submit_goto(e: &mut ExplorerState, vol: &Option<String>) -> (r: Vec<Command>)
    ensures
        explorer_step(*old(e), *vol, 0, AppEvent::ExplorerGotoSubmit, *final(e), r@),
{
    if e.host.goto_active {
        let mut typed = String::new();
        std::mem::swap(&mut typed, &mut e.host.goto_buffer);
        e.host.goto_active = false;
        let target = if typed.as_str().is_empty() { root_path() } else { typed };
        e.host.loading = true;
        open_at(&mut e.host, target.clone());
        return one(Command::ListHostDir(target));
    } else if e.container.goto_active {
        let mut typed = String::new();
        std::mem::swap(&mut typed, &mut e.container.goto_buffer);
        e.container.goto_active = false;
        let target = if typed.as_str().is_empty() { root_path() } else { typed };
        let target = with_slash_exec(target.as_str());
        e.container.loading = true;
        open_at(&mut e.container, target.clone());
        return one(list_container_cmd(vol, &e.container_id, target));
    }
    Vec::new()
}

fn submit_rename(e: &mut ExplorerState) -> (r: Vec<Command>)
    ensures
        explorer_step(*old(e), None, 0, AppEvent::ExplorerRenameSubmit, *final(e), r@),
{
    let mut commands: Vec<Command> = Vec::new();
    if e.host.rename_active {
        if let Some(i) = entry_index_exec(&e.host) {
            let name = &e.host.items[i].name;
            if !e.host.rename_buffer.as_str().is_empty() && !str_eq(e.host.rename_buffer.as_str(), name.as_str()) {
                let from = join_root_exec(e.host.path.as_str(), name.as_str());
                let to = join_root_exec(e.host.path.as_str(), e.host.rename_buffer.as_str());
                commands = one(Command::RenameHostFile(from, to));
            }
        }
        e.host.rename_active = false;
        e.host.rename_buffer = String::new();
    } else if e.container.rename_active {
        if let Some(i) = entry_index_exec(&e.container) {
            let name = &e.container.items[i].name;
            if !e.container.rename_buffer.as_str().is_empty() && !str_eq(e.container.rename_buffer.as_str(), name.as_str()) {
                let from = join_root_exec(e.container.path.as_str(), name.as_str());
                let to = join_root_exec(e.container.path.as_str(), e.container.rename_buffer.as_str());
                commands = one(Command::RenameContainerFile(e.container_id.clone(), from, to));
            }
        }
        e.container.rename_active = false;
        e.container.rename_buffer = String::new();
    }
    commands
}

fn list_into(p: &mut ExplorerPanel, entries: &Vec<ExplorerEntry>)
    ensures
        listed(*old(p), entries@, *final(p)),
{
    p.all_items = entries.clone();
    p.items = apply_filter(entries, p.filter.as_str());
    p.selected = 0;
    p.loading = false;
}

fn step_listing(e: &mut ExplorerState, vol: &Option<String>, tick: u64, event: &AppEvent) -> (r: Vec<Command>)
    requires
        event is ExplorerContainerDirUpdated || event is ExplorerHostDirUpdated || event is ContainerWorkingDir
            || event is ExplorerCreateSubmit || event is ExplorerGotoSubmit || event is ExplorerRenameSubmit,
    ensures
        explorer_step(*old(e), *vol, tick, *event, *final(e), r@),
{
    match event {
        AppEvent::ExplorerContainerDirUpdated(cid, path, entries) => {
            if str_eq(e.container_id.as_str(), cid.as_str()) && str_eq(e.container.path.as_str(), path.as_str()) {
                list_into(&mut e.container, entries);
            }
            Vec::new()
        }
        AppEvent::ExplorerHostDirUpdated(path, entries) => {
            if str_eq(e.host.path.as_str(), path.as_str()) {
                list_into(&mut e.host, entries);
            }
            Vec::new()
        }
        AppEvent::ContainerWorkingDir(cid, wd) => {
            if str_eq(e.container_id.as_str(), cid.as_str()) {
                let target = if wd.as_str().is_empty() || !starts_with_slash_exec(wd.as_str()) {
                    root_path()
                } else {
                    with_slash_exec(wd.as_str())
                };
                e.container.path = target.clone();
                e.container.selected = 0;
                e.container.loading = true;
                return one(Command::ListContainerDir(cid.clone(), target));
            }
            Vec::new()
        }
        AppEvent::ExplorerCreateSubmit => submit_create(e),
        AppEvent::ExplorerGotoSubmit => submit_goto(e, vol),
        AppEvent::ExplorerRenameSubmit => submit_rename(e),
        _ => Vec::new(),
    }
}

fn step_transfer(e: &mut ExplorerState, vol: &Option<String>, tick: u64, event: &AppEvent) -> (r: Vec<Command>)
    requires
        event is ExplorerCopyToContainer || event is ExplorerCopyFromContainer || event is ExplorerTransferComplete
            || event is ExplorerTransferError,
    ensures
        explorer_step(*old(e), *vol, tick, *event, *final(e), r@),
{
    match event {
        AppEvent::ExplorerCopyToContainer => {
            if let Some(i) = entry_index_exec(&e.host) {
                let name = e.host.items[i].name.clone();
                let src = join_root_exec(e.host.path.as_str(), name.as_str());
                let dst = with_slash_exec(e.container.path.as_str());
                let m = concat("Copying ", name.as_str());
                let m = concat(m.as_str(), "...");
                e.transfer_in_progress = true;
                e.transfer_message = Some(m);
                e.transfer_error = None;
                return one(Command::CopyToContainer(e.container_id.clone(), src, dst));
            }
            Vec::new()
        }
        AppEvent::ExplorerCopyFromContainer => {
            if let Some(i) = entry_index_exec(&e.container) {
                let name = e.container.items[i].name.clone();
                let src = join_dir_exec(e.container.path.as_str(), name.as_str());
                let m = concat("Copying ", name.as_str());
                let m = concat(m.as_str(), "...");
                e.transfer_in_progress = true;
                e.transfer_message = Some(m);
                e.transfer_error = None;
                return one(Command::CopyFromContainer(e.container_id.clone(), src, e.host.path.clone()));
            }
            Vec::new()
        }
        AppEvent::ExplorerTransferComplete(msg) => {
            e.transfer_in_progress = false;
            e.transfer_message = Some(msg.clone());
            e.transfer_error = None;
            e.transfer_message_clear_tick = tick.wrapping_add(2);
            let mut commands: Vec<Command> = Vec::new();
            commands.push(Command::ListHostDir(e.host.path.clone()));
            commands.push(Command::ListContainerDir(e.container_id.clone(), e.container.path.clone()));
            commands
        }
        AppEvent::ExplorerTransferError(msg) => {
            e.transfer_in_progress = false;
            e.transfer_error = Some(msg.clone());
            e.transfer_message = None;
            e.transfer_error_clear_tick = tick.wrapping_add(2);
            Vec::new()
        }
        _ => Vec::new(),
    }
}

/// The explorer's own step (see [`explorer_step`]).
pub fn step(e: &mut ExplorerState, vol: &Option<String>, tick: u64, event: &AppEvent) -> (r: Vec<Command>)
    ensures
        explorer_step(*old(e), *vol, tick, *event, *final(e), r@),
{
    match event {
        AppEvent::ExplorerHostToggleSelect | AppEvent::ExplorerContainerToggleSelect | AppEvent::ExplorerCopySelected
        | AppEvent::ExplorerDeleteSelected | AppEvent::ExplorerSelect | AppEvent::ExplorerHostSelect(..)
        | AppEvent::ExplorerContainerSelect(..) => step_select(e, vol, tick, event),
        AppEvent::ExplorerHostGoUp | AppEvent::ExplorerContainerGoUp | AppEvent::ExplorerHostEnterDir(..)
        | AppEvent::ExplorerContainerEnterDir(..) | AppEvent::ExplorerHostRefresh
        | AppEvent::ExplorerContainerRefresh => step_move(e, vol, tick, event),
        AppEvent::ExplorerHostActivateFilter | AppEvent::ExplorerContainerActivateFilter | AppEvent::ExplorerFilter(..)
        | AppEvent::ExplorerFilterSubmit => step_filter(e, vol, tick, event),
        AppEvent::ExplorerHostActivateRename | AppEvent::ExplorerContainerActivateRename
        | AppEvent::ExplorerRenameUpdate(..) | AppEvent::ExplorerRenameCancel | AppEvent::ExplorerHostActivateCreate
        | AppEvent::ExplorerContainerActivateCreate | AppEvent::ExplorerCreateUpdate(..) | AppEvent::ExplorerCreateCancel
        | AppEvent::ExplorerHostActivateGoto | AppEvent::ExplorerContainerActivateGoto | AppEvent::ExplorerGotoUpdate(..)
        | AppEvent::ExplorerGotoCancel => step_prompt(e, vol, tick, event),
        AppEvent::ExplorerContainerDirUpdated(..) | AppEvent::ExplorerHostDirUpdated(..) | AppEvent::ContainerWorkingDir(..)
        | AppEvent::ExplorerCreateSubmit | AppEvent::ExplorerGotoSubmit
        | AppEvent::ExplorerRenameSubmit => step_listing(e, vol, tick, event),
        AppEvent::ExplorerCopyToContainer | AppEvent::ExplorerCopyFromContainer | AppEvent::ExplorerTransferComplete(..)
        | AppEvent::ExplorerTransferError(..) => step_transfer(e, vol, tick, event),
        _ => Vec::new(),
    }
}

/// The volume browsed by the container panel, when the top view is a
/// volume explorer.
pub fn volume_name(state: &AppState) -> (r: Option<String>)
    ensures
        r == vol_of(stack(*state).last()),
{
    match state.navigation.mode_stack.current() {
        Mode::ExplorerVolume(_, name) => Some(name.clone()),
        _ => None,
    }
}

/// The explorer reducer (see [`explorer_post`]).
pub fn reduce(state: &mut AppState, event: &AppEvent) -> (r: Vec<Command>)
    ensures
        explorer_post(*old(state), *event, *final(state), r@),
{
    let vol = volume_name(state);
    let tick = state.tick_count;
    step(&mut state.explorer, &vol, tick, event)
}

} // verus!
