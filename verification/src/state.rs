//! The application state: the view stack, the per-view states and the
//! settings the reducers read and write.

use vstd::prelude::*;
use crate::collections::{StringSet, TextMap};
use crate::config::{Keybindings, OmdockerConfig};
use crate::event::{DockerEvent, LogEntry, StatEntry};
use crate::keymap::KeyMap;
use crate::mode::{ModeStack, Mode};
use crate::resource::{ContainerResource, ImageResource, NetworkResource, ResourceState, VolumeResource};

verus! {

/// The container details view.
#[derive(Debug, PartialEq)]
pub struct DetailsState {
    pub id: String,
    pub container_id: String,
    pub json: Option<String>,
    pub scroll_offset: usize,
}

/// The log view of one container.
#[derive(Debug)]
pub struct LogState {
    pub container_id: String,
    pub buffer: Vec<LogEntry>,
    pub max_lines: usize,
    pub paused: bool,
    pub search: String,
    pub search_active: bool,
    pub scroll_offset: usize,
    pub tail: bool,
    pub show_timestamps: bool,
    pub viewport_height: usize,
}

/// The form for creating a container from an image.
#[derive(Debug)]
pub struct ImageRunState {
    pub image_id: String,
    pub command: String,
    pub shell: String,
    pub user: String,
    pub workdir: String,
    pub env_vars: String,
    pub port_mapping: String,
    pub volumes: String,
    pub container_name: String,
    pub autoremove: bool,
    pub restart_policy: String,
    pub memory_limit: String,
    pub cpu_limit: String,
    pub network: String,
    pub labels: String,
    pub privileged: bool,
    pub field_focus: usize,
    pub validation_errors: Vec<(usize, String)>,
    pub show_advanced: bool,
}

/// The events view.
#[derive(Debug)]
pub struct EventsState {
    pub buffer: Vec<DockerEvent>,
    pub max_events: usize,
    pub filter: String,
    pub filter_active: bool,
    pub scroll_offset: usize,
    pub viewport_height: usize,
    pub last_updated: Option<u64>,
}

impl EventsState {
    /// The events view before any event: empty, unfiltered, at the top.
    pub open spec fn is_fresh(&self) -> bool {
        &&& self.buffer@.len() == 0
        &&& self.max_events == 10000
        &&& self.filter@.len() == 0
        &&& !self.filter_active
        &&& self.scroll_offset == 0
        &&& self.viewport_height == 0
        &&& self.last_updated is None
    }
}

impl Default for EventsState {
    fn default() -> (r: Self)
        ensures
            r.buffer@.len() == 0,
            r.max_events == 10000,
            r.filter@.len() == 0,
            !r.filter_active,
            r.scroll_offset == 0,
            r.viewport_height == 0,
            r.last_updated is None,
    {
        EventsState {
            buffer: Vec::new(),
            max_events: 10000,
            filter: String::new(),
            filter_active: false,
            scroll_offset: 0,
            viewport_height: 0,
            last_updated: None,
        }
    }
}

/// An interactive shell session in a container.
#[derive(Debug, PartialEq)]
pub struct ShellState {
    pub container_id: String,
    pub active: bool,
    pub stop_on_exit: bool,
    pub shell: String,
    pub user: String,
    pub workdir: String,
}

/// The form for the shell settings of a container.
#[derive(Debug, PartialEq)]
pub struct ShellConfigState {
    pub container_id: String,
    pub shell: String,
    pub user: String,
    pub workdir: String,
    pub field_focus: usize,
}

/// The column the statistics are sorted by.
#[derive(Clone, Copy, Debug, PartialEq, Eq, Structural)]
pub enum StatSort {
    Name,
    Cpu,
    Memory,
    NetRx,
    NetTx,
    BlockRead,
    BlockWrite,
    Pids,
}

/// The statistics view.
#[derive(Debug)]
pub struct StatisticsState {
    pub items: Vec<StatEntry>,
    pub loading: bool,
    pub sort_by: StatSort,
    pub sort_ascending: bool,
    pub last_updated: Option<u64>,
    pub scroll_offset: usize,
}

impl StatisticsState {
    /// The statistics view before any sample: empty, loading, sorted by CPU
    /// share, largest first.
    pub open spec fn is_fresh(&self) -> bool {
        &&& self.items@.len() == 0
        &&& self.loading
        &&& self.sort_by == StatSort::Cpu
        &&& !self.sort_ascending
        &&& self.last_updated is None
        &&& self.scroll_offset == 0
    }
}

impl Default for StatisticsState {
    fn default() -> (r: Self)
        ensures
            r.items@.len() == 0,
            r.loading,
            r.sort_by == StatSort::Cpu,
            !r.sort_ascending,
            r.last_updated is None,
            r.scroll_offset == 0,
    {
        StatisticsState {
            items: Vec::new(),
            loading: true,
            sort_by: StatSort::Cpu,
            sort_ascending: false,
            last_updated: None,
            scroll_offset: 0,
        }
    }
}

/// The help view.
#[derive(Clone, Copy, Debug, Default, PartialEq, Eq, Structural)]
pub struct HelpState {
    pub scroll_offset: usize,
}

/// How far a diagnosis of a container has come.
#[derive(Debug, PartialEq)]
pub enum DiagnosticsPhase {
    Collecting,
    Analyzing,
    Done,
    Error(String),
}

/// A diagnosis of one container.
#[derive(Debug, PartialEq)]
pub struct DiagnosticsState {
    pub container_id: String,
    pub phase: DiagnosticsPhase,
    pub analysis: String,
    pub playbook: String,
    pub scroll_offset: usize,
}

impl DiagnosticsState {
    /// A diagnosis that is just starting to collect data.
    pub fn new(container_id: String) -> (r: Self)
        ensures
            r.container_id == container_id,
            r.phase == DiagnosticsPhase::Collecting,
            r.analysis@.len() == 0,
            r.playbook@.len() == 0,
            r.scroll_offset == 0,
    {
        DiagnosticsState {
            container_id,
            phase: DiagnosticsPhase::Collecting,
            analysis: String::new(),
            playbook: String::new(),
            scroll_offset: 0,
        }
    }
}

/// Which panel of the file explorer has the focus.
#[derive(Clone, Copy, Debug, PartialEq, Eq, Structural)]
pub enum ExplorerFocus {
    Left,
    Right,
}

/// One entry of a directory listing.
#[derive(Debug, PartialEq)]
pub struct ExplorerEntry {
    pub name: String,
    pub is_dir: bool,
    pub size: i64,
    pub modified: String,
    pub permissions: String,
}

impl Clone for ExplorerEntry {
    fn clone(&self) -> (r: Self)
        ensures
            r == *self,
    {
        ExplorerEntry {
            name: self.name.clone(),
            is_dir: self.is_dir,
            size: self.size,
            modified: self.modified.clone(),
            permissions: self.permissions.clone(),
        }
    }
}

/// One panel of the file explorer (host or container side).
#[derive(Debug)]
pub struct ExplorerPanel {
    pub path: String,
    pub items: Vec<ExplorerEntry>,
    pub all_items: Vec<ExplorerEntry>,
    pub selected: usize,
    pub scroll_offset: usize,
    pub filter: String,
    pub filter_active: bool,
    pub rename_active: bool,
    pub rename_buffer: String,
    pub loading: bool,
    pub selected_names: StringSet,
    pub create_active: bool,
    pub create_buffer: String,
    pub goto_active: bool,
    pub goto_buffer: String,
}

impl ExplorerPanel {
    /// A panel with no path yet, nothing listed and no input open.
    pub open spec fn is_fresh(&self) -> bool {
        &&& self.path@.len() == 0
        &&& self.items@.len() == 0
        &&& self.all_items@.len() == 0
        &&& self.selected == 0
        &&& self.scroll_offset == 0
        &&& self.filter@.len() == 0
        &&& !self.filter_active
        &&& !self.rename_active
        &&& self.rename_buffer@.len() == 0
        &&& self.loading
        &&& self.selected_names@.len() == 0
        &&& !self.create_active
        &&& self.create_buffer@.len() == 0
        &&& !self.goto_active
        &&& self.goto_buffer@.len() == 0
    }
}

impl Default for ExplorerPanel {
    fn default() -> (r: Self)
        ensures
            r.path@.len() == 0,
            r.items@.len() == 0,
            r.all_items@.len() == 0,
            r.selected == 0,
            r.scroll_offset == 0,
            r.filter@.len() == 0,
            !r.filter_active,
            !r.rename_active,
            r.rename_buffer@.len() == 0,
            r.loading,
            r.selected_names@.len() == 0,
            !r.create_active,
            r.create_buffer@.len() == 0,
            !r.goto_active,
            r.goto_buffer@.len() == 0,
    {
        ExplorerPanel {
            path: String::new(),
            items: Vec::new(),
            all_items: Vec::new(),
            selected: 0,
            scroll_offset: 0,
            filter: String::new(),
            filter_active: false,
            rename_active: false,
            rename_buffer: String::new(),
            loading: true,
            selected_names: StringSet::new(),
            create_active: false,
            create_buffer: String::new(),
            goto_active: false,
            goto_buffer: String::new(),
        }
    }
}

/// The file explorer: a host panel on the left, a container (or volume)
/// panel on the right.
#[derive(Debug)]
pub struct ExplorerState {
    pub focus: ExplorerFocus,
    /// The directory the host panel opens in (the working directory of the
    /// process, read once at start-up).
    pub start_dir: String,
    /// The last path shown for each container or volume key.
    pub path_memory: TextMap<String>,
    pub host: ExplorerPanel,
    pub container: ExplorerPanel,
    pub container_id: String,
    pub transfer_in_progress: bool,
    pub transfer_message: Option<String>,
    pub transfer_error: Option<String>,
    pub transfer_message_clear_tick: u64,
    pub transfer_error_clear_tick: u64,
    pub last_click_time: Option<u64>,
    pub last_click_is_host: bool,
    pub last_click_item_index: usize,
}

impl ExplorerState {
    /// The explorer before it is opened: two fresh panels, the host one
    /// focused, no remembered paths and no transfer.
    pub open spec fn is_fresh(&self) -> bool {
        &&& self.focus == ExplorerFocus::Left
        &&& self.start_dir@.len() == 0
        &&& self.path_memory@ == Map::<Seq<char>, String>::empty()
        &&& self.host.is_fresh()
        &&& self.container.is_fresh()
        &&& self.container_id@.len() == 0
        &&& !self.transfer_in_progress
        &&& self.transfer_message is None
        &&& self.transfer_error is None
        &&& self.transfer_message_clear_tick == 0
        &&& self.transfer_error_clear_tick == 0
        &&& self.last_click_time is None
        &&& !self.last_click_is_host
        &&& self.last_click_item_index == 0
    }
}

impl Default for ExplorerState {
    fn default() -> (r: Self)
        ensures
            r.is_fresh(),
            r.focus == ExplorerFocus::Left,
            r.container_id@.len() == 0,
            !r.transfer_in_progress,
            r.transfer_message is None,
            r.transfer_error is None,
            r.transfer_message_clear_tick == 0,
            r.transfer_error_clear_tick == 0,
            r.last_click_time is None,
            !r.last_click_is_host,
            r.last_click_item_index == 0,
    {
        ExplorerState {
            focus: ExplorerFocus::Left,
            start_dir: String::new(),
            path_memory: TextMap::new(),
            host: ExplorerPanel::default(),
            container: ExplorerPanel::default(),
            container_id: String::new(),
            transfer_in_progress: false,
            transfer_message: None,
            transfer_error: None,
            transfer_message_clear_tick: 0,
            transfer_error_clear_tick: 0,
            last_click_time: None,
            last_click_is_host: false,
            last_click_item_index: 0,
        }
    }
}

/// Daemon connection and per-container progress shown in the containers
/// view.
#[derive(Debug)]
pub struct ContainerStateExtra {
    pub docker_connected: bool,
    pub docker_reconnecting: bool,
    pub stopping_containers: StringSet,
    pub starting_containers: StringSet,
    pub deleting_containers: StringSet,
    pub selection_mode: bool,
    pub selected_ids: StringSet,
    pub status_filter: String,
}

impl ContainerStateExtra {
    /// Not connected yet, nothing under way and nothing selected.
    pub open spec fn is_fresh(&self) -> bool {
        &&& !self.docker_connected
        &&& !self.docker_reconnecting
        &&& self.stopping_containers@.len() == 0
        &&& self.starting_containers@.len() == 0
        &&& self.deleting_containers@.len() == 0
        &&& !self.selection_mode
        &&& self.selected_ids@.len() == 0
        &&& self.status_filter@.len() == 0
    }

    pub fn new() -> (r: Self)
        ensures
            !r.docker_connected,
            !r.docker_reconnecting,
            r.stopping_containers@.len() == 0,
            r.starting_containers@.len() == 0,
            r.deleting_containers@.len() == 0,
            !r.selection_mode,
            r.selected_ids@.len() == 0,
            r.status_filter@.len() == 0,
    {
        ContainerStateExtra {
            docker_connected: false,
            docker_reconnecting: false,
            stopping_containers: StringSet::new(),
            starting_containers: StringSet::new(),
            deleting_containers: StringSet::new(),
            selection_mode: false,
            selected_ids: StringSet::new(),
            status_filter: String::new(),
        }
    }
}

/// The view stack and the states of the views that come and go with it.
#[derive(Debug)]
pub struct NavigationState {
    pub mode_stack: ModeStack,
    pub details: Option<DetailsState>,
    pub logs: Option<LogState>,
    pub shell: Option<ShellState>,
    pub shell_config: Option<ShellConfigState>,
    pub image_run: Option<ImageRunState>,
    pub help: HelpState,
}

impl NavigationState {
    /// Only the containers view is open, and no other view has a state.
    pub open spec fn is_fresh(&self) -> bool {
        &&& self.mode_stack@ == seq![Mode::Containers]
        &&& self.details is None
        &&& self.logs is None
        &&& self.shell is None
        &&& self.shell_config is None
        &&& self.image_run is None
        &&& self.help.scroll_offset == 0
    }

    pub fn new() -> (r: Self)
        ensures
            r.mode_stack@ == seq![Mode::Containers],
            r.details is None,
            r.logs is None,
            r.shell is None,
            r.shell_config is None,
            r.image_run is None,
            r.help.scroll_offset == 0,
    {
        NavigationState {
            mode_stack: ModeStack::new(),
            details: None,
            logs: None,
            shell: None,
            shell_config: None,
            image_run: None,
            help: HelpState { scroll_offset: 0 },
        }
    }
}

/// Everything the application knows.
#[derive(Debug)]
pub struct AppState {
    pub navigation: NavigationState,
    pub containers: ResourceState<ContainerResource>,
    pub container_extra: ContainerStateExtra,
    pub images: ResourceState<ImageResource>,
    pub events: EventsState,
    pub statistics: StatisticsState,
    pub networks: ResourceState<NetworkResource>,
    pub volumes: ResourceState<VolumeResource>,
    pub explorer: ExplorerState,
    pub config: OmdockerConfig,
    pub keymap: KeyMap,
    pub update_available: Option<(String, String)>,
    pub error: Option<String>,
    pub error_timer: u8,
    pub error_persistent: bool,
    pub selected_tab: usize,
    pub previous_tab: usize,
    pub tick_count: u64,
    pub quit: bool,
    pub mouse_enabled: bool,
    pub term_width: u16,
}

impl AppState {
    /// The list views' rows point at their items.
    pub open spec fn wf(&self) -> bool {
        &&& self.containers.wf()
        &&& self.images.wf()
        &&& self.networks.wf()
        &&& self.volumes.wf()
    }

    /// A fresh state: the containers tab, nothing loaded yet, default
    /// configuration.
    pub fn new() -> (r: Self)
        ensures
            r.wf(),
            r.navigation.mode_stack@ == seq![Mode::Containers],
            r.selected_tab == 0,
            r.previous_tab == 0,
            r.tick_count == 0,
            !r.quit,
            !r.mouse_enabled,
            r.term_width == 80,
            r.error is None,
            r.error_timer == 0,
            !r.error_persistent,
            r.update_available is None,
            r.containers.loading,
            r.images.loading,
            r.networks.loading,
            r.volumes.loading,
            r.statistics.loading,
            !r.container_extra.docker_connected,
            r.navigation.is_fresh(),
            r.containers.is_fresh(),
            r.images.is_fresh(),
            r.networks.is_fresh(),
            r.volumes.is_fresh(),
            r.container_extra.is_fresh(),
            r.events.is_fresh(),
            r.statistics.is_fresh(),
            r.explorer.is_fresh(),
            r.config.is_default_config(),
            exists|kb: Keybindings| kb.is_default() && r.keymap.built_from(kb),
    {
        let tab = match crate::mode::mode_to_tab(&Mode::Containers) {
            Some(t) => t,
            None => 0,
        };
        AppState {
            navigation: NavigationState::new(),
            containers: ResourceState::new(),
            container_extra: ContainerStateExtra::new(),
            images: ResourceState::new(),
            events: EventsState::default(),
            statistics: StatisticsState::default(),
            networks: ResourceState::new(),
            volumes: ResourceState::new(),
            explorer: ExplorerState::default(),
            config: OmdockerConfig::default(),
            keymap: KeyMap::default(),
            update_available: None,
            error: None,
            error_timer: 0,
            error_persistent: false,
            selected_tab: tab,
            previous_tab: 0,
            tick_count: 0,
            quit: false,
            mouse_enabled: false,
            term_width: 80,
        }
    }

    /// Rebuilds the key map from the configured bindings.
    pub fn rebuild_keymap(&mut self)
        ensures
            final(self).keymap.built_from(old(self).config.keybindings),
    {
        self.keymap = self.config.keymap();
    }
}

} // verus!
