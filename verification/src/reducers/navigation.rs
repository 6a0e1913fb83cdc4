//! Moving between views: opening and closing them, the help and details
//! views, confirmation dialogs, and jumps within scrollable views.

use vstd::prelude::*;
use crate::collections::TextMap;
use crate::config::ContainerShellConfig;
use crate::event::{AppEvent, Command, ConfirmAction, ContainerSummary};
use crate::mode::{is_base, mode_to_tab, pushed, popped, tab_of, Mode};
use crate::reducers::{image_base, image_base_name, scroll_offset, scrolled};
use crate::state::{AppState, DetailsState, ExplorerFocus, LogState, ShellConfigState, ShellState};
use crate::text::{concat, owned, str_eq};

verus! {

/// The position of the first container with id `id` at or after `i`.
pub open spec fn find_container(items: Seq<ContainerSummary>, id: Seq<char>, i: int) -> Option<int>
    decreases items.len() - i,
{
    if i < 0 || i >= items.len() {
        None
    } else if items[i].id@ == id {
        Some(i)
    } else {
        find_container(items, id, i + 1)
    }
}

proof fn lemma_find_container(items: Seq<ContainerSummary>, id: Seq<char>, i: int)
    requires
        0 <= i,
    ensures
        find_container(items, id, i) matches Some(k) ==> i <= k < items.len() && items[k].id@ == id,
    decreases items.len() - i,
{
    if i < items.len() && items[i].id@ != id {
        lemma_find_container(items, id, i + 1);
    }
}

/// The position of the first container with id `id`.
pub fn position_of_container(items: &Vec<ContainerSummary>, id: &str) -> (r: Option<usize>)
    ensures
        r matches Some(k) ==> find_container(items@, id@, 0) == Some(k as int) && k < items@.len() && items@[k as int].id@ == id@,
        r is None ==> find_container(items@, id@, 0) is None,
{
    proof {
        lemma_find_container(items@, id@, 0);
    }
    let mut i: usize = 0;
    while i < items.len()
        invariant
            i <= items@.len(),
            find_container(items@, id@, i as int) == find_container(items@, id@, 0),
        decreases items@.len() - i,
    {
        if str_eq(items[i].id.as_str(), id) {
            return Some(i);
        }
        i = i + 1;
    }
    None
}

/// A log view of container `id` that has just been opened: empty, following
/// the tail, holding at most 10000 lines.
pub open spec fn fresh_log(l: LogState, id: Seq<char>) -> bool {
    &&& l.container_id@ == id
    &&& l.buffer@.len() == 0
    &&& l.max_lines == 10000
    &&& !l.paused
    &&& l.search@.len() == 0
    &&& !l.search_active
    &&& l.scroll_offset == 0
    &&& l.tail
    &&& !l.show_timestamps
    &&& l.viewport_height == 0
}

pub fn new_log_state(id: String) -> (r: LogState)
    ensures
        fresh_log(r, id@),
        r.container_id == id,
{
    LogState {
        container_id: id,
        buffer: Vec::new(),
        max_lines: 10000,
        paused: false,
        search: String::new(),
        search_active: false,
        scroll_offset: 0,
        tail: true,
        show_timestamps: false,
        viewport_height: 0,
    }
}

/// The empty shell settings.
pub open spec fn no_shell_config() -> ContainerShellConfig {
    ContainerShellConfig { shell: None, user: None, workdir: None }
}

/// The settings stored under `key`, or the empty ones.
pub open spec fn stored(m: Map<Seq<char>, ContainerShellConfig>, key: Seq<char>) -> ContainerShellConfig {
    if m.dom().contains(key) { m[key] } else { no_shell_config() }
}

/// The first of two optional texts that is present, else `fallback`.
pub open spec fn first_of(a: Option<String>, b: Option<String>, fallback: Seq<char>) -> Seq<char> {
    match a {
        Some(x) => x@,
        None => match b {
            Some(y) => y@,
            None => fallback,
        },
    }
}

/// The shell form opened for container `id`: each field comes from the
/// settings saved for the container's name, else from those saved for its
/// image, else the last shell used ("bash" if none) or empty.
pub open spec fn shell_form_for(s: AppState, id: Seq<char>, c: ShellConfigState) -> bool {
    let items = s.containers.items@;
    let k = find_container(items, id, 0);
    let name = match k { Some(k) => items[k].name@, None => Seq::empty() };
    let per_container = stored(s.config.containers@, name);
    let per_image = match k {
        Some(k) => stored(s.config.images@, image_base(items[k].image@)),
        None => no_shell_config(),
    };
    let latest = match s.config.latest_shell { Some(l) => l@, None => "bash"@ };
    &&& c.container_id@ == id
    &&& c.shell@ == first_of(per_container.shell, per_image.shell, latest)
    &&& c.user@ == first_of(per_container.user, per_image.user, Seq::empty())
    &&& c.workdir@ == first_of(per_container.workdir, per_image.workdir, Seq::empty())
    &&& c.field_focus == 0
}

fn pick(a: &Option<String>, b: &Option<String>, fallback: &str) -> (r: String)
    ensures
        r@ == first_of(*a, *b, fallback@),
{
    match a {
        Some(x) => x.clone(),
        None => match b {
            Some(y) => y.clone(),
            None => owned(fallback),
        },
    }
}

fn stored_exec(m: &TextMap<ContainerShellConfig>, key: &str) -> (r: ContainerShellConfig)
    ensures
        r == stored(m@, key@),
{
    match m.get(key) {
        Some(c) => c.clone(),
        None => ContainerShellConfig { shell: None, user: None, workdir: None },
    }
}

fn shell_form(s: &AppState, id: &String) -> (r: ShellConfigState)
    ensures
        shell_form_for(*s, id@, r),
{
    let k = position_of_container(&s.containers.items, id.as_str());
    let ghost items = s.containers.items@;
    let ghost sk = find_container(items, id@, 0);
    let per_container;
    let per_image;
    if let Some(k) = k {
        let c = &s.containers.items[k];
        let base = image_base_name(c.image.as_str());
        per_container = stored_exec(&s.config.containers, c.name.as_str());
        per_image = stored_exec(&s.config.images, base.as_str());
        assert(sk == Some(k as int));
        assert(per_container == stored(s.config.containers@, items[sk->0].name@));
        assert(per_image == stored(s.config.images@, image_base(items[sk->0].image@)));
    } else {
        per_container = stored_exec(&s.config.containers, "");
        per_image = ContainerShellConfig { shell: None, user: None, workdir: None };
        proof {
            reveal_strlit("");
            assert(""@ =~= Seq::<char>::empty());
        }
        assert(sk is None);
    }
    let latest = match &s.config.latest_shell {
        Some(l) => l.clone(),
        None => owned("bash"),
    };
    let shell = pick(&per_container.shell, &per_image.shell, latest.as_str());
    let user = pick(&per_container.user, &per_image.user, "");
    let workdir = pick(&per_container.workdir, &per_image.workdir, "");
    proof {
        reveal_strlit("");
        assert(""@ =~= Seq::<char>::empty());
    }
    ShellConfigState { container_id: id.clone(), shell, user, workdir, field_focus: 0 }
}

/// Whether the top view is the help view.
pub open spec fn is_help(m: Mode) -> bool {
    m is Help
}

/// The view stack of a state.
pub open spec fn stack(s: AppState) -> Seq<Mode> {
    s.navigation.mode_stack@
}

/// Opening a view: shell sessions, log views, the shell form and the
/// explorer set up their state first; a base view replaces the current base
/// view (or is pushed over a sub-view) and selects its tab, remembering the
/// tab left behind when it is the help view.
pub open spec fn navigate_post(s0: AppState, mode: Mode, s1: AppState, cmds: Seq<Command>) -> bool {
    match mode {
        Mode::Shell(id) => {
            &&& s1 == AppState {
                navigation: crate::state::NavigationState {
                    mode_stack: s1.navigation.mode_stack,
                    shell: s1.navigation.shell,
                    ..s0.navigation
                },
                ..s0
            }
            &&& stack(s1) == pushed(stack(s0), mode)
            &&& s1.navigation.shell matches Some(sh) && sh.container_id == id && sh.active && !sh.stop_on_exit
                && sh.shell@ == "bash"@ && sh.user@.len() == 0 && sh.workdir@.len() == 0
            &&& cmds.len() == 0
        },
        Mode::Logs(id) => {
            &&& s1 == AppState {
                navigation: crate::state::NavigationState {
                    mode_stack: s1.navigation.mode_stack,
                    logs: s1.navigation.logs,
                    ..s0.navigation
                },
                ..s0
            }
            &&& stack(s1) == pushed(stack(s0), mode)
            &&& s1.navigation.logs matches Some(l) && fresh_log(l, id@)
            &&& cmds == (match s0.navigation.logs {
                Some(old) => seq![Command::AbortLogStream(old.container_id), Command::FetchLogs(id)],
                None => seq![Command::FetchLogs(id)],
            })
        },
        Mode::ShellConfig(id) => {
            &&& s1 == AppState {
                navigation: crate::state::NavigationState {
                    mode_stack: s1.navigation.mode_stack,
                    shell_config: s1.navigation.shell_config,
                    ..s0.navigation
                },
                ..s0
            }
            &&& stack(s1) == pushed(stack(s0), mode)
            &&& s1.navigation.shell_config matches Some(c) && shell_form_for(s0, id@, c)
            &&& cmds.len() == 0
        },
        Mode::Explorer(id) => {
            &&& s1 == AppState {
                navigation: crate::state::NavigationState {
                    mode_stack: s1.navigation.mode_stack,
                    ..s0.navigation
                },
                explorer: s1.explorer,
                ..s0
            }
            &&& stack(s1) == pushed(stack(s0), mode)
            &&& explorer_opened(s0, s1, id@, "container:"@ + id@, id@)
            &&& cmds == seq![Command::ListHostDir(s1.explorer.host.path), Command::FetchContainerWorkingDir(id)]
        },
        Mode::ExplorerVolume(mountpoint, name) => {
            &&& s1 == AppState {
                navigation: crate::state::NavigationState {
                    mode_stack: s1.navigation.mode_stack,
                    ..s0.navigation
                },
                explorer: s1.explorer,
                ..s0
            }
            &&& stack(s1) == pushed(stack(s0), mode)
            &&& explorer_opened(s0, s1, volume_explorer_id(name@), "volume:"@ + name@, name@)
            &&& cmds == seq![
                Command::ListHostDir(s1.explorer.host.path),
                Command::ListVolumeDir(name, s1.explorer.container.path),
            ]
        },
        _ => {
            &&& s1 == AppState {
                navigation: crate::state::NavigationState {
                    mode_stack: s1.navigation.mode_stack,
                    ..s0.navigation
                },
                selected_tab: s1.selected_tab,
                previous_tab: s1.previous_tab,
                ..s0
            }
            &&& cmds.len() == 0
            &&& match tab_of(mode) {
                Some(t) => {
                    &&& stack(s1) == (if is_base(stack(s0).last()) {
                        stack(s0).drop_last().push(mode)
                    } else {
                        pushed(stack(s0), mode)
                    })
                    &&& s1.selected_tab == t
                    &&& s1.previous_tab == (if is_help(mode) { s0.selected_tab } else { s0.previous_tab })
                },
                None => {
                    &&& stack(s1) == pushed(stack(s0), mode)
                    &&& s1.selected_tab == s0.selected_tab
                    &&& s1.previous_tab == s0.previous_tab
                },
            }
        },
    }
}

/// The id the explorer keeps for a volume it browses: "__volume__:"
/// followed by the volume's name; listings of the volume arrive under it.
pub open spec fn volume_explorer_id(name: Seq<char>) -> Seq<char> {
    "__volume__:"@ + name
}

/// The id the explorer keeps for a volume (see [`volume_explorer_id`]).
pub fn volume_explorer_key(name: &str) -> (r: String)
    ensures
        r@ == volume_explorer_id(name@),
{
    concat("__volume__:", name)
}

/// The explorer after opening it for the container (or volume) known by
/// `key`: the path shown for the previous key is remembered, the host panel
/// starts in the start directory, the other panel at the remembered path
/// for `memory_key` (or "/"), both empty and loading, and all transfer
/// state is reset.
pub open spec fn explorer_opened(s0: AppState, s1: AppState, key: Seq<char>, memory_key: Seq<char>, _name: Seq<char>) -> bool {
    let e0 = s0.explorer;
    let e1 = s1.explorer;
    let memory = if e0.container_id@.len() > 0 {
        e0.path_memory@.insert(e0.container_id@, e0.container.path)
    } else {
        e0.path_memory@
    };
    &&& e1.path_memory@ == memory
    &&& e1.container_id@ == key
    &&& e1.host == crate::state::ExplorerPanel {
        path: e0.start_dir,
        items: e1.host.items,
        selected: 0,
        loading: true,
        ..e0.host
    }
    &&& e1.host.items@.len() == 0
    &&& e1.container == crate::state::ExplorerPanel {
        path: e1.container.path,
        items: e1.container.items,
        selected: 0,
        loading: true,
        ..e0.container
    }
    &&& e1.container.items@.len() == 0
    &&& e1.container.path@ == (if memory.dom().contains(memory_key) { memory[memory_key]@ } else { "/"@ })
    &&& e1.focus == ExplorerFocus::Left
    &&& e1.start_dir == e0.start_dir
    &&& !e1.transfer_in_progress
    &&& e1.transfer_message is None
    &&& e1.transfer_error is None
    &&& e1.transfer_message_clear_tick == 0
    &&& e1.transfer_error_clear_tick == 0
    &&& e1.last_click_time is None
    &&& e1.last_click_is_host == e0.last_click_is_host
    &&& e1.last_click_item_index == e0.last_click_item_index
}

fn open_explorer(state: &mut AppState, key: String, memory_key: String, name: Ghost<Seq<char>>)
    ensures
        final(state).navigation == old(state).navigation,
        *final(state) == (AppState { explorer: final(state).explorer, ..*old(state) }),
        explorer_opened(*old(state), *final(state), key@, memory_key@, name@),
{
    let prev_key = state.explorer.container_id.clone();
    if !prev_key.as_str().is_empty() {
        let p = state.explorer.container.path.clone();
        state.explorer.path_memory.insert(prev_key, p);
    }
    state.explorer.container_id = key;
    let saved = match state.explorer.path_memory.get(memory_key.as_str()) {
        Some(p) => p.clone(),
        None => owned("/"),
    };
    state.explorer.host.path = state.explorer.start_dir.clone();
    state.explorer.host.items = Vec::new();
    state.explorer.host.selected = 0;
    state.explorer.host.loading = true;
    state.explorer.container.path = saved;
    state.explorer.container.items = Vec::new();
    state.explorer.container.selected = 0;
    state.explorer.container.loading = true;
    state.explorer.transfer_in_progress = false;
    state.explorer.transfer_message = None;
    state.explorer.transfer_error = None;
    state.explorer.transfer_message_clear_tick = 0;
    state.explorer.transfer_error_clear_tick = 0;
    state.explorer.last_click_time = None;
    state.explorer.focus = ExplorerFocus::Left;
}

fn is_help_mode(m: &Mode) -> (r: bool)
    ensures
        r == is_help(*m),
{
    match m {
        Mode::Help => true,
        _ => false,
    }
}

/// Opens a view (see [`navigate_post`]).
pub fn navigate(state: &mut AppState, mode: &Mode) -> (r: Vec<Command>)
    ensures
        navigate_post(*old(state), *mode, *final(state), r@),
{
    let mut commands: Vec<Command> = Vec::new();
    match mode {
        Mode::Shell(id) => {
            state.navigation.shell = Some(ShellState {
                container_id: id.clone(),
                active: true,
                stop_on_exit: false,
                shell: owned("bash"),
                user: String::new(),
                workdir: String::new(),
            });
            state.navigation.mode_stack.push(mode.clone());
        }
        Mode::Logs(id) => {
            let ghost old_logs = state.navigation.logs;
            if let Some(logs) = &state.navigation.logs {
                commands.push(Command::AbortLogStream(logs.container_id.clone()));
            }
            state.navigation.logs = Some(new_log_state(id.clone()));
            commands.push(Command::FetchLogs(id.clone()));
            state.navigation.mode_stack.push(mode.clone());
            assert(commands@ =~= (match old_logs {
                Some(old) => seq![Command::AbortLogStream(old.container_id), Command::FetchLogs(*id)],
                None => seq![Command::FetchLogs(*id)],
            }));
        }
        Mode::ShellConfig(id) => {
            let form = shell_form(state, id);
            state.navigation.shell_config = Some(form);
            state.navigation.mode_stack.push(mode.clone());
        }
        Mode::Explorer(id) => {
            open_explorer(state, id.clone(), concat("container:", id.as_str()), Ghost(id@));
            commands.push(Command::ListHostDir(state.explorer.host.path.clone()));
            commands.push(Command::FetchContainerWorkingDir(id.clone()));
            state.navigation.mode_stack.push(mode.clone());
            assert(commands@ =~= seq![Command::ListHostDir(state.explorer.host.path), Command::FetchContainerWorkingDir(*id)]);
        }
        Mode::ExplorerVolume(_mountpoint, name) => {
            open_explorer(state, volume_explorer_key(name.as_str()), concat("volume:", name.as_str()), Ghost(name@));
            commands.push(Command::ListHostDir(state.explorer.host.path.clone()));
            commands.push(Command::ListVolumeDir(name.clone(), state.explorer.container.path.clone()));
            state.navigation.mode_stack.push(mode.clone());
            assert(commands@ =~= seq![
                Command::ListHostDir(state.explorer.host.path),
                Command::ListVolumeDir(*name, state.explorer.container.path),
            ]);
        }
        _ => {
            match mode_to_tab(mode) {
                Some(t) => {
                    if is_help_mode(mode) {
                        state.previous_tab = state.selected_tab;
                    }
                    let cur_is_base = mode_to_tab(state.navigation.mode_stack.current()).is_some();
                    if cur_is_base {
                        state.navigation.mode_stack.replace_current(mode.clone());
                    } else {
                        state.navigation.mode_stack.push(mode.clone());
                    }
                    state.selected_tab = t;
                }
                None => {
                    state.navigation.mode_stack.push(mode.clone());
                }
            }
        }
    }
    commands
}


/// Going back: a volume explorer asks for its helper container to be
/// removed, an open log view stops its stream, the log, shell-form and
/// run-form states are dropped, the top view is closed (unless it is the
/// only one) and the tab follows the view returned to.
pub open spec fn back_post(s0: AppState, s1: AppState, cmds: Seq<Command>) -> bool {
    let cur = stack(s0).last();
    let first: Seq<Command> = match cur {
        Mode::ExplorerVolume(_, name) => seq![Command::RemoveVolumeHelper(name)],
        _ => Seq::empty(),
    };
    let second: Seq<Command> = match s0.navigation.logs {
        Some(l) => seq![Command::AbortLogStream(l.container_id)],
        None => Seq::empty(),
    };
    &&& s1 == AppState {
        navigation: crate::state::NavigationState {
            mode_stack: s1.navigation.mode_stack,
            logs: None,
            shell_config: None,
            image_run: None,
            ..s0.navigation
        },
        selected_tab: s1.selected_tab,
        ..s0
    }
    &&& stack(s1) == popped(stack(s0)).0
    &&& s1.selected_tab == (match tab_of(stack(s1).last()) { Some(t) => t, None => s0.selected_tab })
    &&& cmds == first + second
}

/// Goes back to the previous view (see [`back_post`]).
pub fn back(state: &mut AppState) -> (r: Vec<Command>)
    ensures
        back_post(*old(state), *final(state), r@),
{
    let mut commands: Vec<Command> = Vec::new();
    let ghost s0 = *state;
    if let Mode::ExplorerVolume(_, name) = state.navigation.mode_stack.current() {
        commands.push(Command::RemoveVolumeHelper(name.clone()));
    }
    let ghost after_first = commands@;
    if let Some(logs) = &state.navigation.logs {
        commands.push(Command::AbortLogStream(logs.container_id.clone()));
    }
    state.navigation.logs = None;
    state.navigation.shell_config = None;
    state.navigation.image_run = None;
    state.navigation.mode_stack.back();
    if let Some(tab) = mode_to_tab(state.navigation.mode_stack.current()) {
        state.selected_tab = tab;
    }
    proof {
        let first: Seq<Command> = match stack(s0).last() {
            Mode::ExplorerVolume(_, name) => seq![Command::RemoveVolumeHelper(name)],
            _ => Seq::empty(),
        };
        assert(after_first =~= first);
        let second: Seq<Command> = match s0.navigation.logs {
            Some(l) => seq![Command::AbortLogStream(l.container_id)],
            None => Seq::empty(),
        };
        assert(commands@ =~= first + second);
    }
    commands
}

/// The commands and selection changes that answering yes to a dialog
/// brings about, given the state after the dialog was closed.
pub open spec fn confirm_post(s0: AppState, action: ConfirmAction, s1: AppState, cmds: Seq<Command>) -> bool {
    let x0 = s0.container_extra;
    let x1 = s1.container_extra;
    match action {
        ConfirmAction::DeleteContainer(id) => if id@.len() > 0 {
            &&& s1 == AppState { container_extra: s1.container_extra, ..s0 }
            &&& x1 == crate::state::ContainerStateExtra { deleting_containers: x1.deleting_containers, ..x0 }
            &&& x1.deleting_containers@ == crate::collections::with(x0.deleting_containers@, id@)
            &&& cmds == seq![Command::DeleteContainer(id)]
        } else {
            batch_delete_containers_post(s0, s1, cmds)
        },
        ConfirmAction::BatchDeleteContainers => batch_delete_containers_post(s0, s1, cmds),
        ConfirmAction::RemoveImage(id) => s1 == s0 && cmds == (if id@.len() == 0 {
            seq![Command::RemoveDanglingImages]
        } else {
            seq![Command::RemoveImage(id)]
        }),
        ConfirmAction::RemoveDanglingImages => s1 == s0 && cmds == seq![Command::RemoveDanglingImages],
        ConfirmAction::PruneUnusedImages => s1 == s0 && cmds == seq![Command::PruneUnusedImages],
        ConfirmAction::RemoveNetwork(id) => s1 == s0 && cmds == seq![Command::RemoveNetwork(id)],
        ConfirmAction::RemoveVolume(name) => s1 == s0 && cmds == seq![Command::RemoveVolume(name)],
        ConfirmAction::BatchDeleteImages => {
            &&& s1 == AppState { images: s1.images, ..s0 }
            &&& s1.images == crate::resource::ResourceState { selected_ids: s1.images.selected_ids, selection_mode: false, ..s0.images }
            &&& s1.images.selected_ids@.len() == 0
            &&& cmds.len() == (if s0.images.selected_ids@.len() == 0 { 0int } else { 1int })
            &&& cmds.len() == 1 ==> cmds[0] is BatchDeleteImages && crate::config::texts(cmds[0]->BatchDeleteImages_0@) == s0.images.selected_ids@
        },
        ConfirmAction::BatchDeleteNetworks => {
            &&& s1 == AppState { networks: s1.networks, ..s0 }
            &&& s1.networks == crate::resource::ResourceState { selected_ids: s1.networks.selected_ids, selection_mode: false, ..s0.networks }
            &&& s1.networks.selected_ids@.len() == 0
            &&& cmds.len() == (if s0.networks.selected_ids@.len() == 0 { 0int } else { 1int })
            &&& cmds.len() == 1 ==> cmds[0] is BatchDeleteNetworks && crate::config::texts(cmds[0]->BatchDeleteNetworks_0@) == s0.networks.selected_ids@
        },
        ConfirmAction::BatchDeleteVolumes => {
            &&& s1 == AppState { volumes: s1.volumes, ..s0 }
            &&& s1.volumes == crate::resource::ResourceState { selected_ids: s1.volumes.selected_ids, selection_mode: false, ..s0.volumes }
            &&& s1.volumes.selected_ids@.len() == 0
            &&& cmds.len() == (if s0.volumes.selected_ids@.len() == 0 { 0int } else { 1int })
            &&& cmds.len() == 1 ==> cmds[0] is BatchDeleteVolumes && crate::config::texts(cmds[0]->BatchDeleteVolumes_0@) == s0.volumes.selected_ids@
        },
        ConfirmAction::DeleteHostFile(path) => s1 == s0 && cmds == seq![Command::DeleteHostFile(path)],
        ConfirmAction::DeleteContainerFile(id, path) => s1 == s0 && cmds == seq![Command::DeleteContainerFile(id, path)],
    }
}

/// Deleting the selected containers: when some are selected, the selection
/// is handed over in one command and selection mode ends; otherwise nothing
/// happens.
pub open spec fn batch_delete_containers_post(s0: AppState, s1: AppState, cmds: Seq<Command>) -> bool {
    let x0 = s0.container_extra;
    let x1 = s1.container_extra;
    if x0.selected_ids@.len() == 0 {
        s1 == s0 && cmds.len() == 0
    } else {
        &&& s1 == AppState { container_extra: s1.container_extra, ..s0 }
        &&& x1 == crate::state::ContainerStateExtra { selected_ids: x1.selected_ids, selection_mode: false, ..x0 }
        &&& x1.selected_ids@.len() == 0
        &&& cmds.len() == 1
        &&& cmds[0] is BatchDeleteContainers
        &&& crate::config::texts(cmds[0]->BatchDeleteContainers_0@) == x0.selected_ids@
    }
}

fn batch_delete_containers(state: &mut AppState) -> (r: Vec<Command>)
    ensures
        batch_delete_containers_post(*old(state), *final(state), r@),
{
    let mut commands = Vec::new();
    if !state.container_extra.selected_ids.is_empty() {
        let ids = state.container_extra.selected_ids.to_vec();
        state.container_extra.selected_ids.clear();
        state.container_extra.selection_mode = false;
        commands.push(Command::BatchDeleteContainers(ids));
    }
    commands
}

fn batch_delete_images(state: &mut AppState) -> (r: Vec<Command>)
    ensures
        confirm_post(*old(state), ConfirmAction::BatchDeleteImages, *final(state), r@),
{
    let mut commands = Vec::new();
    let ids = state.images.selected_ids.to_vec();
    state.images.selected_ids.clear();
    state.images.selection_mode = false;
    if ids.len() > 0 {
        commands.push(Command::BatchDeleteImages(ids));
    }
    commands
}

fn batch_delete_networks(state: &mut AppState) -> (r: Vec<Command>)
    ensures
        confirm_post(*old(state), ConfirmAction::BatchDeleteNetworks, *final(state), r@),
{
    let mut commands = Vec::new();
    let ids = state.networks.selected_ids.to_vec();
    state.networks.selected_ids.clear();
    state.networks.selection_mode = false;
    if ids.len() > 0 {
        commands.push(Command::BatchDeleteNetworks(ids));
    }
    commands
}

fn batch_delete_volumes(state: &mut AppState) -> (r: Vec<Command>)
    ensures
        confirm_post(*old(state), ConfirmAction::BatchDeleteVolumes, *final(state), r@),
{
    let mut commands = Vec::new();
    let ids = state.volumes.selected_ids.to_vec();
    state.volumes.selected_ids.clear();
    state.volumes.selection_mode = false;
    if ids.len() > 0 {
        commands.push(Command::BatchDeleteVolumes(ids));
    }
    commands
}

#[verifier::rlimit(40)]
fn confirm(state: &mut AppState, action: ConfirmAction) -> (r: Vec<Command>)
    ensures
        confirm_post(*old(state), action, *final(state), r@),
{
    let mut commands = Vec::new();
    match action {
        ConfirmAction::DeleteContainer(id) => {
            if id.as_str().is_empty() {
                commands = batch_delete_containers(state);
            } else {
                state.container_extra.deleting_containers.insert(id.clone());
                commands.push(Command::DeleteContainer(id));
            }
        }
        ConfirmAction::BatchDeleteContainers => {
            commands = batch_delete_containers(state);
        }
        ConfirmAction::RemoveImage(id) => {
            if id.as_str().is_empty() {
                commands.push(Command::RemoveDanglingImages);
            } else {
                commands.push(Command::RemoveImage(id));
            }
        }
        ConfirmAction::RemoveDanglingImages => commands.push(Command::RemoveDanglingImages),
        ConfirmAction::PruneUnusedImages => commands.push(Command::PruneUnusedImages),
        ConfirmAction::RemoveNetwork(id) => commands.push(Command::RemoveNetwork(id)),
        ConfirmAction::RemoveVolume(name) => commands.push(Command::RemoveVolume(name)),
        ConfirmAction::BatchDeleteImages => {
            commands = batch_delete_images(state);
        }
        ConfirmAction::BatchDeleteNetworks => {
            commands = batch_delete_networks(state);
        }
        ConfirmAction::BatchDeleteVolumes => {
            commands = batch_delete_volumes(state);
        }
        ConfirmAction::DeleteHostFile(path) => commands.push(Command::DeleteHostFile(path)),
        ConfirmAction::DeleteContainerFile(id, path) => commands.push(Command::DeleteContainerFile(id, path)),
    }
    commands
}

/// The state with the top view closed (as [`popped`] does) and nothing else
/// changed.
pub open spec fn closed_top(s0: AppState, s1: AppState) -> bool {
    &&& s1 == AppState {
        navigation: crate::state::NavigationState { mode_stack: s1.navigation.mode_stack, ..s0.navigation },
        ..s0
    }
    &&& stack(s1) == popped(stack(s0)).0
}

/// The details view of the selected container is opened and the container
/// inspected; without a selected container nothing happens.
pub open spec fn show_details_post(s0: AppState, s1: AppState, cmds: Seq<Command>) -> bool {
    let c = s0.containers;
    if c.selected < c.filtered@.len() && c.filtered@[c.selected as int] < c.items@.len() {
        let item = c.items@[c.filtered@[c.selected as int] as int];
        &&& s1 == AppState {
            navigation: crate::state::NavigationState {
                mode_stack: s1.navigation.mode_stack,
                details: Some(DetailsState { id: item.id, container_id: item.name, json: None, scroll_offset: 0 }),
                ..s0.navigation
            },
            ..s0
        }
        &&& stack(s1) == pushed(stack(s0), Mode::ContainerDetails(item.id))
        &&& cmds == seq![Command::InspectContainer(item.id)]
    } else {
        s1 == s0 && cmds.len() == 0
    }
}

fn show_details(state: &mut AppState) -> (r: Vec<Command>)
    ensures
        show_details_post(*old(state), *final(state), r@),
{
    let mut commands = Vec::new();
    if state.containers.selected < state.containers.filtered.len() {
        let idx = state.containers.filtered[state.containers.selected];
        if idx < state.containers.items.len() {
            let id = state.containers.items[idx].id.clone();
            let name = state.containers.items[idx].name.clone();
            state.navigation.mode_stack.push(Mode::ContainerDetails(id.clone()));
            state.navigation.details = Some(DetailsState {
                id: id.clone(),
                container_id: name,
                json: None,
                scroll_offset: 0,
            });
            commands.push(Command::InspectContainer(id));
            assert(commands@ =~= seq![Command::InspectContainer(id)]);
        }
    }
    commands
}

/// What the navigation reducer does with each event it handles; other
/// events change nothing.
pub open spec fn navigation_post(s0: AppState, event: AppEvent, s1: AppState, cmds: Seq<Command>) -> bool {
    match event {
        AppEvent::Navigate(mode) => navigate_post(s0, mode, s1, cmds),
        AppEvent::Back => back_post(s0, s1, cmds),
        AppEvent::ShowHelp => {
            &&& s1 == AppState {
                navigation: crate::state::NavigationState { mode_stack: s1.navigation.mode_stack, ..s0.navigation },
                ..s0
            }
            &&& stack(s1) == pushed(stack(s0), Mode::Help)
            &&& cmds.len() == 0
        },
        AppEvent::HideHelp => cmds.len() == 0 && if is_help(stack(s0).last()) { closed_top(s0, s1) } else { s1 == s0 },
        AppEvent::ScrollHelp(delta) => {
            &&& s1 == AppState {
                navigation: crate::state::NavigationState {
                    help: crate::state::HelpState { scroll_offset: scrolled(s0.navigation.help.scroll_offset, delta, 10000) },
                    ..s0.navigation
                },
                ..s0
            }
            &&& cmds.len() == 0
        },
        AppEvent::ShowConfirmDialog(prompt, action) => {
            &&& s1 == AppState {
                navigation: crate::state::NavigationState { mode_stack: s1.navigation.mode_stack, ..s0.navigation },
                ..s0
            }
            &&& stack(s1) == pushed(stack(s0), Mode::ConfirmDialog { prompt, action })
            &&& cmds.len() == 0
        },
        AppEvent::ConfirmYes => match stack(s0).last() {
            Mode::ConfirmDialog { action, .. } => exists|mid: AppState| closed_top(s0, mid) && confirm_post(mid, action, s1, cmds),
            _ => s1 == s0 && cmds.len() == 0,
        },
        AppEvent::ConfirmNo => cmds.len() == 0 && if stack(s0).last() is ConfirmDialog { closed_top(s0, s1) } else { s1 == s0 },
        AppEvent::ShowDetails => show_details_post(s0, s1, cmds),
        AppEvent::Inspected(json, name) => {
            &&& s1 == AppState {
                navigation: crate::state::NavigationState {
                    details: s1.navigation.details,
                    ..s0.navigation
                },
                ..s0
            }
            &&& s1.navigation.details matches Some(d) && d.container_id == name && d.json == Some(json)
                && d.id@ == (match s0.navigation.details { Some(p) => p.id@, None => Seq::empty() })
                && d.scroll_offset == (match s0.navigation.details { Some(p) => p.scroll_offset, None => 0 })
            &&& cmds.len() == 0
        },
        AppEvent::ScrollDetails(delta) => {
            &&& s1 == AppState {
                navigation: crate::state::NavigationState {
                    details: match s0.navigation.details {
                        Some(d) => Some(DetailsState { scroll_offset: scrolled(d.scroll_offset, delta, 10000), ..d }),
                        None => None,
                    },
                    ..s0.navigation
                },
                ..s0
            }
            &&& cmds.len() == 0
        },
        AppEvent::FilterSubmit(sel) => {
            &&& cmds.len() == 0
            &&& match stack(s0).last() {
                Mode::Containers => s1 == AppState {
                    containers: crate::resource::ResourceState {
                        filter_active: false,
                        selected: match sel {
                            Some(i) => if i < s0.containers.filtered@.len() { i } else { s0.containers.selected },
                            None => s0.containers.selected,
                        },
                        ..s0.containers
                    },
                    ..s0
                },
                Mode::Images => s1 == AppState {
                    images: crate::resource::ResourceState {
                        filter_active: false,
                        selected: match sel {
                            Some(i) => if i < s0.images.filtered@.len() { i } else { s0.images.selected },
                            None => s0.images.selected,
                        },
                        ..s0.images
                    },
                    ..s0
                },
                _ => s1 == s0,
            }
        },
        AppEvent::JumpTop => {
            &&& s1 == AppState {
                events: crate::state::EventsState { scroll_offset: s0.events.buffer@.len() as usize, ..s0.events },
                navigation: crate::state::NavigationState {
                    logs: match s0.navigation.logs {
                        Some(l) => Some(LogState { scroll_offset: l.buffer@.len() as usize, tail: false, ..l }),
                        None => None,
                    },
                    ..s0.navigation
                },
                ..s0
            }
            &&& cmds.len() == 0
        },
        AppEvent::JumpBottom => {
            &&& s1 == AppState {
                events: crate::state::EventsState { scroll_offset: 0, ..s0.events },
                navigation: crate::state::NavigationState {
                    logs: match s0.navigation.logs {
                        Some(l) => Some(LogState { scroll_offset: 0, tail: true, ..l }),
                        None => None,
                    },
                    ..s0.navigation
                },
                ..s0
            }
            &&& cmds.len() == 0
        },
        _ => s1 == s0 && cmds.len() == 0,
    }
}

/// The navigation reducer (see [`navigation_post`]).
pub fn reduce(state: &mut AppState, event: &AppEvent) -> (r: Vec<Command>)
    ensures
        navigation_post(*old(state), *event, *final(state), r@),
{
    let mut commands: Vec<Command> = Vec::new();
    match event {
        AppEvent::Navigate(mode) => {
            commands = navigate(state, mode);
        }
        AppEvent::Back => {
            commands = back(state);
        }
        AppEvent::ShowHelp => state.navigation.mode_stack.push(Mode::Help),
        AppEvent::HideHelp => {
            if is_help_mode(state.navigation.mode_stack.current()) {
                state.navigation.mode_stack.back();
            }
        }
        AppEvent::ScrollHelp(delta) => {
            state.navigation.help.scroll_offset = scroll_offset(state.navigation.help.scroll_offset, *delta, 10000);
        }
        AppEvent::ShowConfirmDialog(prompt, action) => {
            state.navigation.mode_stack.push(Mode::ConfirmDialog { prompt: prompt.clone(), action: action.clone() });
        }
        AppEvent::ConfirmYes => {
            let action = match state.navigation.mode_stack.current() {
                Mode::ConfirmDialog { action, .. } => Some(action.clone()),
                _ => None,
            };
            if let Some(action) = action {
                state.navigation.mode_stack.back();
                let ghost mid = *state;
                commands = confirm(state, action);
                assert(closed_top(*old(state), mid));
            }
        }
        AppEvent::ConfirmNo => {
            if let Mode::ConfirmDialog { .. } = state.navigation.mode_stack.current() {
                state.navigation.mode_stack.back();
            }
        }
        AppEvent::ShowDetails => {
            commands = show_details(state);
        }
        AppEvent::Inspected(json, name) => {
            let (existing_id, existing_scroll) = match &state.navigation.details {
                Some(d) => (d.id.clone(), d.scroll_offset),
                None => (String::new(), 0),
            };
            state.navigation.details = Some(DetailsState {
                id: existing_id,
                container_id: name.clone(),
                json: Some(json.clone()),
                scroll_offset: existing_scroll,
            });
        }
        AppEvent::ScrollDetails(delta) => {
            if let Some(d) = &mut state.navigation.details {
                d.scroll_offset = scroll_offset(d.scroll_offset, *delta, 10000);
            }
        }
        AppEvent::FilterSubmit(sel) => {
            match state.navigation.mode_stack.current() {
                Mode::Containers => {
                    state.containers.filter_active = false;
                    if let Some(idx) = sel {
                        if *idx < state.containers.filtered.len() {
                            state.containers.selected = *idx;
                        }
                    }
                }
                Mode::Images => {
                    state.images.filter_active = false;
                    if let Some(idx) = sel {
                        if *idx < state.images.filtered.len() {
                            state.images.selected = *idx;
                        }
                    }
                }
                _ => {}
            }
        }
        AppEvent::JumpTop => {
            state.events.scroll_offset = state.events.buffer.len();
            if let Some(log) = &mut state.navigation.logs {
                log.scroll_offset = log.buffer.len();
                log.tail = false;
            }
        }
        AppEvent::JumpBottom => {
            state.events.scroll_offset = 0;
            if let Some(log) = &mut state.navigation.logs {
                log.scroll_offset = 0;
                log.tail = true;
            }
        }
        _ => {}
    }
    commands
}

} // verus!
