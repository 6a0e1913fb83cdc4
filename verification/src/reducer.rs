//! The top-level reducer: the events every view shares (quitting, the
//! clock, messages, updates, the mouse, the daemon connection), and the
//! hand-off of the others to the reducer of their view.

use vstd::prelude::*;
use crate::event::{AppEvent, Command, MouseClickKind};
use crate::mode::Mode;
use crate::reducers::navigation::stack;
use crate::resource::ResourceState;
use crate::state::{AppState, ContainerStateExtra, ExplorerState};
use crate::text::{concat, owned};

verus! {

/// The tick after `t`, wrapping around.
pub open spec fn next_tick(t: u64) -> u64 {
    if t == u64::MAX { 0 } else { (t + 1) as u64 }
}

/// One tick of the clock: the counter moves on; a message that is not
/// persistent counts down and disappears when its timer runs out; the
/// explorer's transfer notices disappear when their tick has come.
pub open spec fn tick_post(s0: AppState, s1: AppState) -> bool {
    let t = next_tick(s0.tick_count);
    let counting = !s0.error_persistent && s0.error_timer > 0;
    let timer = if counting { (s0.error_timer - 1) as u8 } else { s0.error_timer };
    let expired = counting && timer == 0;
    let ex = s0.explorer;
    s1 == AppState {
        tick_count: t,
        error_timer: timer,
        error: if expired { None } else { s0.error },
        error_persistent: if expired { false } else { s0.error_persistent },
        explorer: ExplorerState {
            transfer_message: if ex.transfer_message is Some && t >= ex.transfer_message_clear_tick { None } else { ex.transfer_message },
            transfer_error: if ex.transfer_error is Some && t >= ex.transfer_error_clear_tick { None } else { ex.transfer_error },
            ..ex
        },
        ..s0
    }
}

/// The state with a transient message `m` shown for `ticks` ticks.
pub open spec fn shows(s0: AppState, s1: AppState, m: Seq<char>, ticks: u8) -> bool {
    &&& s1 == AppState { error: s1.error, error_timer: ticks, ..s0 }
    &&& s1.error matches Some(e) && e@ == m
}

/// Whether the event belongs to the navigation reducer.
pub open spec fn for_navigation(e: AppEvent) -> bool {
    e is Navigate || e is Back || e is ShowHelp || e is HideHelp || e is ScrollHelp || e is ShowConfirmDialog
        || e is ConfirmYes || e is ConfirmNo || e is ShowDetails || e is Inspected || e is ScrollDetails
        || e is FilterSubmit || e is JumpTop || e is JumpBottom
}

/// Whether the event belongs to the containers reducer.
pub open spec fn for_containers(e: AppEvent) -> bool {
    e is ContainersUpdated || e is SelectContainer || e is FilterContainers || e is ActivateFilter
        || e is RestartContainer || e is StopContainer || e is ContainerStopped || e is ContainerStarted
        || e is StartContainer || e is ContainerDeleted || e is ToggleSelectContainer || e is SelectAllContainers
        || e is ToggleColumnPicker || e is ToggleColumn || e is BatchToggleContainers || e is CycleStatusFilter
}

/// Whether the event belongs to the images reducer.
pub open spec fn for_images(e: AppEvent) -> bool {
    e is ImagesUpdated || e is SelectImage || e is FilterImages || e is ActivateImageFilter || e is PrunedImages
        || e is RunImage || e is ImageRunFieldUpdate || e is ImageRunToggleAutoremove || e is ImageRunToggleAdvanced
        || e is ImageRunFocusNext || e is ImageRunFocusPrev || e is ImageRunSubmit
}

/// Whether the event belongs to the log reducer.
pub open spec fn for_logs(e: AppEvent) -> bool {
    e is LogLines || e is TogglePause || e is ActivateLogSearch || e is SearchLogs || e is SubmitLogSearch
        || e is ScrollLogs || e is ToggleLogTimestamps || e is ExportLogs
}

/// Whether the event belongs to the events reducer.
pub open spec fn for_events(e: AppEvent) -> bool {
    e is EventsUpdated || e is ActivateEventsFilter || e is EventsFilterSubmit || e is FilterEvents
        || e is ScrollEvents || e is ExportEvents
}

/// Whether the event belongs to the shell reducer.
pub open spec fn for_shell(e: AppEvent) -> bool {
    e is CloseShell || e is StartShell || e is ShellConfigSubmit || e is ShellConfigFieldUpdate
        || e is ShellConfigFocusNext || e is ShellConfigFocusPrev
}

/// Whether the event belongs to the explorer reducer.
pub open spec fn for_explorer(e: AppEvent) -> bool {
    e is ExplorerSelect || e is ExplorerCopyToContainer || e is ExplorerCopyFromContainer
        || e is ExplorerTransferComplete || e is ExplorerTransferError || e is ExplorerFilter
        || e is ExplorerContainerDirUpdated || e is ExplorerHostGoUp || e is ExplorerContainerGoUp
        || e is ExplorerHostSelect || e is ExplorerContainerSelect || e is ExplorerHostEnterDir
        || e is ExplorerContainerEnterDir || e is ExplorerHostRefresh || e is ExplorerContainerRefresh
        || e is ExplorerHostActivateFilter || e is ExplorerContainerActivateFilter || e is ExplorerFilterSubmit
        || e is ExplorerHostActivateRename || e is ExplorerContainerActivateRename || e is ExplorerRenameUpdate
        || e is ExplorerRenameCancel || e is ExplorerRenameSubmit || e is ExplorerHostActivateGoto
        || e is ExplorerContainerActivateGoto || e is ExplorerGotoUpdate || e is ExplorerGotoSubmit
        || e is ExplorerGotoCancel || e is ExplorerHostDirUpdated || e is ContainerWorkingDir
        || e is ExplorerHostToggleSelect || e is ExplorerContainerToggleSelect || e is ExplorerCopySelected
        || e is ExplorerDeleteSelected || e is ExplorerHostActivateCreate || e is ExplorerContainerActivateCreate
        || e is ExplorerCreateUpdate || e is ExplorerCreateCancel || e is ExplorerCreateSubmit
}

/// What the application does with an event at time `now` (milliseconds):
/// the shared events here, the others as the reducer of their view says;
/// sorting and selection toggles go to the view on top.
pub open spec fn app_post(s0: AppState, event: AppEvent, now: u64, s1: AppState, cmds: Seq<Command>) -> bool {
    let top = stack(s0).last();
    let x0 = s0.container_extra;
    match event {
        AppEvent::Quit => s1 == AppState { quit: true, ..s0 } && cmds.len() == 0,
        AppEvent::Tick => tick_post(s0, s1) && cmds.len() == 0,
        AppEvent::CheckUpdate => match s0.update_available {
            Some((version, url)) => {
                &&& shows(AppState { update_available: None, ..s0 }, s1, "Downloading update..."@, 5)
                &&& cmds == seq![Command::DownloadUpdate { version, download_url: url }]
            },
            None => shows(s0, s1, "Checking for updates..."@, 5) && cmds == seq![Command::CheckUpdate],
        },
        AppEvent::UpdateAvailable(version, url) => s1 == AppState { update_available: Some((version, url)), ..s0 } && cmds.len() == 0,
        AppEvent::Error(msg) => s1 == AppState { error: Some(msg), error_persistent: true, ..s0 } && cmds.len() == 0,
        AppEvent::Info(msg) => cmds.len() == 0 && if msg@.len() == 0 {
            s1 == AppState { error: None, error_persistent: false, error_timer: 0, ..s0 }
        } else {
            s1 == AppState { error: Some(msg), error_timer: 5, error_persistent: false, ..s0 }
        },
        AppEvent::ToggleMouse => s1 == AppState { mouse_enabled: !s0.mouse_enabled, ..s0 } && cmds == seq![Command::ToggleMouseCapture],
        AppEvent::MouseClick { row, col, kind } => crate::reducers::mouse::mouse_post(s0, row, col, kind, now, s1, cmds),
        AppEvent::DockerReconnecting => s1 == AppState {
            container_extra: ContainerStateExtra { docker_reconnecting: true, ..x0 },
            containers: ResourceState { loading: true, ..s0.containers },
            ..s0
        } && cmds.len() == 0,
        AppEvent::DockerReconnected => s1 == AppState {
            container_extra: ContainerStateExtra { docker_reconnecting: false, docker_connected: true, ..x0 },
            containers: ResourceState { loading: false, ..s0.containers },
            ..s0
        } && cmds.len() == 0,
        AppEvent::DockerConnectionLost(reason) => s1 == AppState {
            container_extra: ContainerStateExtra { docker_reconnecting: false, docker_connected: false, ..x0 },
            containers: ResourceState { loading: false, ..s0.containers },
            error: Some(reason),
            error_timer: 10,
            ..s0
        } && cmds.len() == 0,
        AppEvent::StatisticsUpdated(..) | AppEvent::CycleSortStat(..) =>
            crate::reducers::statistics::statistics_post(s0, event, now, s1, cmds),
        AppEvent::ToggleSortDirection => if top is Statistics {
            crate::reducers::statistics::statistics_post(s0, event, now, s1, cmds)
        } else {
            s1 == s0 && cmds.len() == 0
        },
        AppEvent::ToggleSelectionMode => if top is Containers {
            crate::reducers::container::container_post(s0, event, now, s1, cmds)
        } else if top is Volumes {
            crate::reducers::volume::volume_post(s0, event, now, s1, cmds)
        } else {
            s1 == s0 && cmds.len() == 0
        },
        AppEvent::ToggleSelectResource(..) | AppEvent::SelectAllResources => if top is Volumes {
            crate::reducers::volume::volume_post(s0, event, now, s1, cmds)
        } else {
            s1 == s0 && cmds.len() == 0
        },
        AppEvent::NetworksUpdated(..) | AppEvent::SelectNetwork(..) => crate::reducers::network::network_post(s0, event, now, s1, cmds),
        AppEvent::VolumesUpdated(..) | AppEvent::SelectVolume(..) => crate::reducers::volume::volume_post(s0, event, now, s1, cmds),
        _ => if for_navigation(event) {
            crate::reducers::navigation::navigation_post(s0, event, s1, cmds)
        } else if for_containers(event) {
            crate::reducers::container::container_post(s0, event, now, s1, cmds)
        } else if for_images(event) {
            crate::reducers::image::image_post(s0, event, now, s1, cmds)
        } else if for_logs(event) {
            crate::reducers::log::log_post(s0, event, s1, cmds)
        } else if for_events(event) {
            crate::reducers::events::events_post(s0, event, now, s1, cmds)
        } else if for_shell(event) {
            crate::reducers::shell::shell_post(s0, event, s1, cmds)
        } else if for_explorer(event) {
            crate::reducers::explorer::explorer_post(s0, event, s1, cmds)
        } else {
            s1 == s0 && cmds.len() == 0
        },
    }
}

fn tick(state: &mut AppState)
    ensures
        tick_post(*old(state), *final(state)),
{
    state.tick_count = state.tick_count.wrapping_add(1);
    if !state.error_persistent && state.error_timer > 0 {
        state.error_timer = state.error_timer - 1;
        if state.error_timer == 0 {
            state.error = None;
            state.error_persistent = false;
        }
    }
    if state.explorer.transfer_message.is_some() && state.tick_count >= state.explorer.transfer_message_clear_tick {
        state.explorer.transfer_message = None;
    }
    if state.explorer.transfer_error.is_some() && state.tick_count >= state.explorer.transfer_error_clear_tick {
        state.explorer.transfer_error = None;
    }
}

fn check_update(state: &mut AppState) -> (r: Vec<Command>)
    ensures
        app_post(*old(state), AppEvent::CheckUpdate, 0, *final(state), r@),
{
    let mut commands: Vec<Command> = Vec::new();
    match state.update_available.take() {
        Some((version, url)) => {
            commands.push(Command::DownloadUpdate { version, download_url: url });
            state.error = Some(owned("Downloading update..."));
            state.error_timer = 5;
        }
        None => {
            commands.push(Command::CheckUpdate);
            state.error = Some(owned("Checking for updates..."));
            state.error_timer = 5;
        }
    }
    proof {
        assert(commands@ =~= seq![commands@[0]]);
    }
    commands
}

fn shared_event(state: &mut AppState, event: &AppEvent, now: u64) -> (r: Vec<Command>)
    requires
        event is Quit || event is Tick || event is CheckUpdate || event is UpdateAvailable || event is Error
            || event is Info || event is ToggleMouse || event is DockerReconnecting || event is DockerReconnected
            || event is DockerConnectionLost,
    ensures
        app_post(*old(state), *event, now, *final(state), r@),
{
    match event {
        AppEvent::Quit => state.quit = true,
        AppEvent::Tick => tick(state),
        AppEvent::CheckUpdate => return check_update(state),
        AppEvent::UpdateAvailable(version, url) => state.update_available = Some((version.clone(), url.clone())),
        AppEvent::Error(msg) => {
            state.error = Some(msg.clone());
            state.error_persistent = true;
        }
        AppEvent::Info(msg) => {
            if msg.as_str().is_empty() {
                state.error = None;
                state.error_persistent = false;
                state.error_timer = 0;
            } else {
                state.error = Some(msg.clone());
                state.error_timer = 5;
                state.error_persistent = false;
            }
        }
        AppEvent::ToggleMouse => {
            state.mouse_enabled = !state.mouse_enabled;
            let mut commands: Vec<Command> = Vec::new();
            commands.push(Command::ToggleMouseCapture);
            assert(commands@ =~= seq![Command::ToggleMouseCapture]);
            return commands;
        }
        AppEvent::DockerReconnecting => {
            state.container_extra.docker_reconnecting = true;
            state.containers.loading = true;
        }
        AppEvent::DockerReconnected => {
            state.container_extra.docker_reconnecting = false;
            state.container_extra.docker_connected = true;
            state.containers.loading = false;
        }
        AppEvent::DockerConnectionLost(reason) => {
            state.container_extra.docker_connected = false;
            state.container_extra.docker_reconnecting = false;
            state.containers.loading = false;
            state.error = Some(reason.clone());
            state.error_timer = 10;
        }
        _ => {}
    }
    Vec::new()
}

fn by_top(state: &mut AppState, event: &AppEvent, now: u64) -> (r: Vec<Command>)
    requires
        event is ToggleSortDirection || event is ToggleSelectionMode || event is ToggleSelectResource
            || event is SelectAllResources,
    ensures
        app_post(*old(state), *event, now, *final(state), r@),
{
    let top = match state.navigation.mode_stack.current() {
        Mode::Statistics => 1u8,
        Mode::Containers => 2u8,
        Mode::Volumes => 3u8,
        _ => 0u8,
    };
    match event {
        AppEvent::ToggleSortDirection => {
            if top == 1 {
                return crate::reducers::statistics::reduce(state, event, now);
            }
        }
        AppEvent::ToggleSelectionMode => {
            if top == 2 {
                return crate::reducers::container::reduce(state, event, now);
            } else if top == 3 {
                return crate::reducers::volume::reduce(state, event, now);
            }
        }
        _ => {
            if top == 3 {
                return crate::reducers::volume::reduce(state, event, now);
            }
        }
    }
    Vec::new()
}

fn is_navigation_event(e: &AppEvent) -> (r: bool)
    ensures
        r == for_navigation(*e),
{
    match e {
        AppEvent::Navigate(..) | AppEvent::Back | AppEvent::ShowHelp | AppEvent::HideHelp | AppEvent::ScrollHelp(..)
        | AppEvent::ShowConfirmDialog(..) | AppEvent::ConfirmYes | AppEvent::ConfirmNo | AppEvent::ShowDetails
        | AppEvent::Inspected(..) | AppEvent::ScrollDetails(..) | AppEvent::FilterSubmit(..) | AppEvent::JumpTop
        | AppEvent::JumpBottom => true,
        _ => false,
    }
}

fn is_container_event(e: &AppEvent) -> (r: bool)
    ensures
        r == for_containers(*e),
{
    match e {
        AppEvent::ContainersUpdated(..) | AppEvent::SelectContainer(..) | AppEvent::FilterContainers(..)
        | AppEvent::ActivateFilter | AppEvent::RestartContainer(..) | AppEvent::StopContainer(..)
        | AppEvent::ContainerStopped(..) | AppEvent::ContainerStarted(..) | AppEvent::StartContainer(..)
        | AppEvent::ContainerDeleted(..) | AppEvent::ToggleSelectContainer(..) | AppEvent::SelectAllContainers
        | AppEvent::ToggleColumnPicker | AppEvent::ToggleColumn(..) | AppEvent::BatchToggleContainers(..)
        | AppEvent::CycleStatusFilter => true,
        _ => false,
    }
}

fn is_image_event(e: &AppEvent) -> (r: bool)
    ensures
        r == for_images(*e),
{
    match e {
        AppEvent::ImagesUpdated(..) | AppEvent::SelectImage(..) | AppEvent::FilterImages(..)
        | AppEvent::ActivateImageFilter | AppEvent::PrunedImages(..) | AppEvent::RunImage(..)
        | AppEvent::ImageRunFieldUpdate(..) | AppEvent::ImageRunToggleAutoremove | AppEvent::ImageRunToggleAdvanced
        | AppEvent::ImageRunFocusNext | AppEvent::ImageRunFocusPrev | AppEvent::ImageRunSubmit => true,
        _ => false,
    }
}

fn is_log_event(e: &AppEvent) -> (r: bool)
    ensures
        r == for_logs(*e),
{
    match e {
        AppEvent::LogLines(..) | AppEvent::TogglePause | AppEvent::ActivateLogSearch | AppEvent::SearchLogs(..)
        | AppEvent::SubmitLogSearch | AppEvent::ScrollLogs(..) | AppEvent::ToggleLogTimestamps
        | AppEvent::ExportLogs(..) => true,
        _ => false,
    }
}

fn is_events_event(e: &AppEvent) -> (r: bool)
    ensures
        r == for_events(*e),
{
    match e {
        AppEvent::EventsUpdated(..) | AppEvent::ActivateEventsFilter | AppEvent::EventsFilterSubmit
        | AppEvent::FilterEvents(..) | AppEvent::ScrollEvents(..) | AppEvent::ExportEvents => true,
        _ => false,
    }
}

fn is_shell_event(e: &AppEvent) -> (r: bool)
    ensures
        r == for_shell(*e),
{
    match e {
        AppEvent::CloseShell | AppEvent::StartShell(..) | AppEvent::ShellConfigSubmit
        | AppEvent::ShellConfigFieldUpdate(..) | AppEvent::ShellConfigFocusNext | AppEvent::ShellConfigFocusPrev => true,
        _ => false,
    }
}

fn is_explorer_event(e: &AppEvent) -> (r: bool)
    ensures
        r == for_explorer(*e),
{
    match e {
        AppEvent::ExplorerSelect | AppEvent::ExplorerCopyToContainer | AppEvent::ExplorerCopyFromContainer
        | AppEvent::ExplorerTransferComplete(..) | AppEvent::ExplorerTransferError(..) | AppEvent::ExplorerFilter(..)
        | AppEvent::ExplorerContainerDirUpdated(..) | AppEvent::ExplorerHostGoUp | AppEvent::ExplorerContainerGoUp
        | AppEvent::ExplorerHostSelect(..) | AppEvent::ExplorerContainerSelect(..) | AppEvent::ExplorerHostEnterDir(..)
        | AppEvent::ExplorerContainerEnterDir(..) | AppEvent::ExplorerHostRefresh | AppEvent::ExplorerContainerRefresh
        | AppEvent::ExplorerHostActivateFilter | AppEvent::ExplorerContainerActivateFilter
        | AppEvent::ExplorerFilterSubmit | AppEvent::ExplorerHostActivateRename
        | AppEvent::ExplorerContainerActivateRename | AppEvent::ExplorerRenameUpdate(..) | AppEvent::ExplorerRenameCancel
        | AppEvent::ExplorerRenameSubmit | AppEvent::ExplorerHostActivateGoto | AppEvent::ExplorerContainerActivateGoto
        | AppEvent::ExplorerGotoUpdate(..) | AppEvent::ExplorerGotoSubmit | AppEvent::ExplorerGotoCancel
        | AppEvent::ExplorerHostDirUpdated(..) | AppEvent::ContainerWorkingDir(..)
        | AppEvent::ExplorerHostToggleSelect | AppEvent::ExplorerContainerToggleSelect
        | AppEvent::ExplorerCopySelected | AppEvent::ExplorerDeleteSelected | AppEvent::ExplorerHostActivateCreate
        | AppEvent::ExplorerContainerActivateCreate | AppEvent::ExplorerCreateUpdate(..)
        | AppEvent::ExplorerCreateCancel | AppEvent::ExplorerCreateSubmit => true,
        _ => false,
    }
}

fn delegate(state: &mut AppState, event: &AppEvent, now: u64) -> (r: Vec<Command>)
    requires
        !(event is Quit || event is Tick || event is CheckUpdate || event is UpdateAvailable || event is Error
            || event is Info || event is ToggleMouse || event is MouseClick || event is DockerReconnecting
            || event is DockerReconnected || event is DockerConnectionLost || event is StatisticsUpdated
            || event is CycleSortStat || event is ToggleSortDirection || event is ToggleSelectionMode
            || event is ToggleSelectResource || event is SelectAllResources || event is NetworksUpdated
            || event is SelectNetwork || event is VolumesUpdated || event is SelectVolume),
    ensures
        app_post(*old(state), *event, now, *final(state), r@),
{
    if is_navigation_event(event) {
        crate::reducers::navigation::reduce(state, event)
    } else if is_container_event(event) {
        crate::reducers::container::reduce(state, event, now)
    } else if is_image_event(event) {
        crate::reducers::image::reduce(state, event, now)
    } else if is_log_event(event) {
        crate::reducers::log::reduce(state, event)
    } else if is_events_event(event) {
        crate::reducers::events::reduce(state, event, now)
    } else if is_shell_event(event) {
        crate::reducers::shell::reduce(state, event)
    } else if is_explorer_event(event) {
        crate::reducers::explorer::reduce(state, event)
    } else {
        Vec::new()
    }
}

/// Applies `event` at time `now` (milliseconds since the epoch) and returns
/// the work for the runtime (see [`app_post`]).
pub fn reduce_at(state: &mut AppState, event: AppEvent, now: u64) -> (r: Vec<Command>)
    requires
        old(state).wf(),
    ensures
        app_post(*old(state), event, now, *final(state), r@),
        final(state).wf(),
{
    let ghost s0 = *old(state);
    let ghost e = event;
    let r = reduce_event(state, event, now);
    proof {
        lemma_app_keeps_wf(s0, e, now, *state, r@);
    }
    r
}

/// Every event keeps the list views' rows pointing at items that exist.
pub proof fn lemma_app_keeps_wf(s0: AppState, event: AppEvent, now: u64, s1: AppState, cmds: Seq<Command>)
    requires
        s0.wf(),
        app_post(s0, event, now, s1, cmds),
    ensures
        s1.wf(),
{
    match event {
        AppEvent::MouseClick { row, col, kind } => lemma_mouse_keeps_wf(s0, row, col, kind, now, s1, cmds),
        AppEvent::StatisticsUpdated(..) | AppEvent::CycleSortStat(..) | AppEvent::ToggleSortDirection => {},
        AppEvent::ToggleSelectionMode | AppEvent::ToggleSelectResource(..) | AppEvent::SelectAllResources => {
            if stack(s0).last() is Containers && event is ToggleSelectionMode {
                lemma_containers_keep_wf(s0, event, now, s1, cmds);
            }
        },
        AppEvent::NetworksUpdated(..) | AppEvent::SelectNetwork(..) => {},
        AppEvent::VolumesUpdated(..) | AppEvent::SelectVolume(..) => {},
        AppEvent::Quit | AppEvent::Tick | AppEvent::CheckUpdate | AppEvent::UpdateAvailable(..) | AppEvent::Error(..)
        | AppEvent::Info(..) | AppEvent::ToggleMouse | AppEvent::DockerReconnecting | AppEvent::DockerReconnected
        | AppEvent::DockerConnectionLost(..) => {},
        _ => {
            if for_navigation(event) {
                lemma_navigation_keeps_wf(s0, event, s1, cmds);
            } else if for_containers(event) {
                lemma_containers_keep_wf(s0, event, now, s1, cmds);
            } else if for_images(event) {
                lemma_images_keep_wf(s0, event, now, s1, cmds);
            } else if for_logs(event) {
            } else if for_events(event) {
            } else if for_shell(event) {
            } else if for_explorer(event) {
            }
        },
    }
}

/// Tab and then BackTab lead back to the tab one started on. In a base
/// view with no text input open, no pinned error and no quit, back or help
/// binding on these keys, Tab opens the next tab; once that view is open,
/// BackTab opens the first tab again.
pub proof fn lemma_tab_then_backtab(
    s0: AppState,
    r1: Option<crate::handlers::KeyResult>,
    now: u64,
    s1: AppState,
    cmds: Seq<Command>,
    r2: Option<crate::handlers::KeyResult>,
)
    requires
        s0.selected_tab < crate::mode::TAB_COUNT,
        crate::mode::is_base(stack(s0).last()),
        !crate::handlers::input::in_input_mode(s0),
        !s0.error_persistent,
        !crate::keymap::any_matches(s0.keymap.quit@, crate::keymap::KeyCode::Tab, crate::keymap::no_mods()),
        !crate::keymap::any_matches(s0.keymap.back@, crate::keymap::KeyCode::Tab, crate::keymap::no_mods()),
        !crate::keymap::any_matches(s0.keymap.help@, crate::keymap::KeyCode::Tab, crate::keymap::no_mods()),
        !crate::keymap::any_matches(s0.keymap.quit@, crate::keymap::KeyCode::BackTab, crate::keymap::shift()),
        !crate::keymap::any_matches(s0.keymap.back@, crate::keymap::KeyCode::BackTab, crate::keymap::shift()),
        !crate::keymap::any_matches(s0.keymap.help@, crate::keymap::KeyCode::BackTab, crate::keymap::shift()),
        crate::handlers::input::key_result(s0, tab_press(), r1),
        app_post(s0, AppEvent::Navigate(crate::mode::mode_of_tab(next_tab_of(s0.selected_tab))), now, s1, cmds),
        crate::handlers::input::key_result(s1, backtab_press(), r2),
    ensures
        r1 == crate::handlers::input::navigate(crate::mode::mode_of_tab(next_tab_of(s0.selected_tab))),
        r2 == crate::handlers::input::navigate(crate::mode::mode_of_tab(s0.selected_tab)),
{
    let n = next_tab_of(s0.selected_tab);
    crate::mode::lemma_tab_round_trip(n);
    assert(stack(s1).last() == crate::mode::mode_of_tab(n));
    assert(s1.selected_tab == n);
    assert(((n + crate::mode::TAB_COUNT - 1) % (crate::mode::TAB_COUNT as int)) as usize == s0.selected_tab);
}

/// The tab after `t`, wrapping around.
pub open spec fn next_tab_of(t: usize) -> usize {
    ((t + 1) % (crate::mode::TAB_COUNT as int)) as usize
}

/// A press of Tab.
pub open spec fn tab_press() -> crate::handlers::KeyEvent {
    crate::handlers::KeyEvent { code: crate::keymap::KeyCode::Tab, modifiers: crate::keymap::no_mods(), kind: crate::handlers::KeyEventKind::Press }
}

/// A press of Shift+BackTab.
pub open spec fn backtab_press() -> crate::handlers::KeyEvent {
    crate::handlers::KeyEvent { code: crate::keymap::KeyCode::BackTab, modifiers: crate::keymap::shift(), kind: crate::handlers::KeyEventKind::Press }
}

proof fn lemma_mouse_keeps_wf(s0: AppState, row: u16, col: u16, kind: MouseClickKind, now: u64, s1: AppState, cmds: Seq<Command>)
    requires
        s0.wf(),
        crate::reducers::mouse::mouse_post(s0, row, col, kind, now, s1, cmds),
    ensures
        s1.wf(),
{
}

proof fn lemma_navigation_keeps_wf(s0: AppState, event: AppEvent, s1: AppState, cmds: Seq<Command>)
    requires
        s0.wf(),
        crate::reducers::navigation::navigation_post(s0, event, s1, cmds),
    ensures
        s1.wf(),
{
}

proof fn lemma_containers_keep_wf(s0: AppState, event: AppEvent, now: u64, s1: AppState, cmds: Seq<Command>)
    requires
        s0.wf(),
        crate::reducers::container::container_post(s0, event, now, s1, cmds),
    ensures
        s1.wf(),
{
}

proof fn lemma_images_keep_wf(s0: AppState, event: AppEvent, now: u64, s1: AppState, cmds: Seq<Command>)
    requires
        s0.wf(),
        crate::reducers::image::image_post(s0, event, now, s1, cmds),
    ensures
        s1.wf(),
{
}

fn reduce_event(state: &mut AppState, event: AppEvent, now: u64) -> (r: Vec<Command>)
    requires
        old(state).wf(),
    ensures
        app_post(*old(state), event, now, *final(state), r@),
{
    match &event {
        AppEvent::Quit | AppEvent::Tick | AppEvent::CheckUpdate | AppEvent::UpdateAvailable(..) | AppEvent::Error(..)
        | AppEvent::Info(..) | AppEvent::ToggleMouse | AppEvent::DockerReconnecting | AppEvent::DockerReconnected
        | AppEvent::DockerConnectionLost(..) => shared_event(state, &event, now),
        AppEvent::MouseClick { row, col, kind } => crate::reducers::mouse::handle_mouse(state, *row, *col, *kind, now),
        AppEvent::StatisticsUpdated(..) | AppEvent::CycleSortStat(..) => crate::reducers::statistics::reduce(state, &event, now),
        AppEvent::ToggleSortDirection | AppEvent::ToggleSelectionMode | AppEvent::ToggleSelectResource(..)
        | AppEvent::SelectAllResources => by_top(state, &event, now),
        AppEvent::NetworksUpdated(..) | AppEvent::SelectNetwork(..) => crate::reducers::network::reduce(state, &event, now),
        AppEvent::VolumesUpdated(..) | AppEvent::SelectVolume(..) => crate::reducers::volume::reduce(state, &event, now),
        _ => delegate(state, &event, now),
    }
}

/// The commands to run and whether the configuration must be saved: a
/// save request is not run with the others but once after them, however
/// many were asked for.
pub fn split_save(commands: Vec<Command>) -> (r: (Vec<Command>, bool))
    ensures
        r.0@ == commands@.filter(|c: Command| !(c is SaveConfig)),
        r.1 == exists|i: int| 0 <= i < commands@.len() && commands@[i] is SaveConfig,
{
    let ghost all = commands@;
    let ghost pred = |c: Command| !(c is SaveConfig);
    let mut rest = commands;
    let mut out: Vec<Command> = Vec::new();
    let mut save = false;
    let ghost mut i: int = 0;
    while rest.len() > 0
        invariant
            0 <= i <= all.len(),
            rest@ == all.subrange(i, all.len() as int),
            pred == (|c: Command| !(c is SaveConfig)),
            out@ == all.subrange(0, i).filter(pred),
            save == exists|j: int| 0 <= j < i && all[j] is SaveConfig,
        decreases rest@.len(),
    {
        let c = rest.remove(0);
        proof {
            assert(c == all[i]);
            assert(all.subrange(0, i + 1) =~= all.subrange(0, i).push(all[i]));
            all.subrange(0, i).lemma_filter_push(all[i], pred);
            assert(rest@ =~= all.subrange(i + 1, all.len() as int));
        }
        match c {
            Command::SaveConfig => {
                save = true;
            },
            other => {
                out.push(other);
            },
        }
        proof {
            i = i + 1;
        }
    }
    assert(all.subrange(0, i) =~= all);
    (out, save)
}

/// The state after saving the configuration failed with `reason`: the
/// failure is shown as a message for five ticks.
pub fn note_save_failure(state: &mut AppState, reason: &str)
    ensures
        *final(state) == (AppState { error: final(state).error, error_timer: 5, ..*old(state) }),
        final(state).error matches Some(m) && m@ == "Failed to save config: "@ + reason@,
{
    state.error = Some(concat("Failed to save config: ", reason));
    state.error_timer = 5;
}

/// Milliseconds since the Unix epoch by the system clock (0 if the clock is
/// before the epoch). Nothing is promised of the value.
#[verifier::external_body]
pub(crate) fn clock_millis() -> (r: u64) {
    match std::time::SystemTime::now().duration_since(std::time::UNIX_EPOCH) {
        Ok(d) => d.as_millis() as u64,
        Err(_) => 0,
    }
}

/// Applies `event` now, by the system clock (see [`reduce_at`]).
pub fn reduce(state: &mut AppState, event: AppEvent) -> (r: Vec<Command>)
    requires
        old(state).wf(),
    ensures
        exists|now: u64| app_post(*old(state), event, now, *final(state), r@),
        final(state).wf(),
{
    let now = clock_millis();
    reduce_at(state, event, now)
}

} // verus!
