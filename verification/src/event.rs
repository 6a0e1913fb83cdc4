//! The messages that flow through the application: what the daemon reports,
//! what the user asks for, and the commands the reducers hand back.

use vstd::prelude::*;
use crate::mode::Mode;
use crate::state::ExplorerEntry;

verus! {

/// A container as the list view shows it.
#[derive(Debug, PartialEq)]
pub struct ContainerSummary {
    pub id: String,
    pub name: String,
    pub image: String,
    pub state: String,
    pub status: String,
    pub ports: String,
    pub project: String,
    pub health: String,
}

impl Clone for ContainerSummary {
    fn clone(&self) -> (r: Self)
        ensures
            r == *self,
    {
        ContainerSummary {
            id: self.id.clone(),
            name: self.name.clone(),
            image: self.image.clone(),
            state: self.state.clone(),
            status: self.status.clone(),
            ports: self.ports.clone(),
            project: self.project.clone(),
            health: self.health.clone(),
        }
    }
}

/// An image as the images view shows it.
#[derive(Debug, PartialEq)]
pub struct ImageEntry {
    pub id: String,
    pub repository: String,
    pub tag: String,
    pub size: i64,
}

impl Clone for ImageEntry {
    fn clone(&self) -> (r: Self)
        ensures
            r == *self,
    {
        ImageEntry {
            id: self.id.clone(),
            repository: self.repository.clone(),
            tag: self.tag.clone(),
            size: self.size,
        }
    }
}

/// One line of a container's log.
#[derive(Debug, PartialEq)]
pub struct LogEntry {
    pub timestamp: String,
    pub message: String,
}

impl Clone for LogEntry {
    fn clone(&self) -> (r: Self)
        ensures
            r == *self,
    {
        LogEntry {
            timestamp: self.timestamp.clone(),
            message: self.message.clone(),
        }
    }
}

/// One event from the daemon's event stream.
#[derive(Debug, PartialEq)]
pub struct DockerEvent {
    pub timestamp: String,
    pub kind: String,
    pub action: String,
    pub actor: String,
}

impl Clone for DockerEvent {
    fn clone(&self) -> (r: Self)
        ensures
            r == *self,
    {
        DockerEvent {
            timestamp: self.timestamp.clone(),
            kind: self.kind.clone(),
            action: self.action.clone(),
            actor: self.actor.clone(),
        }
    }
}

/// Resource usage of one running container. The two percentages are
/// carried as the IEEE 754 bit patterns of their `f64` values.
#[derive(Debug, PartialEq)]
pub struct StatEntry {
    pub container_id: String,
    pub name: String,
    pub cpu_percent_bits: u64,
    pub memory_usage: u64,
    pub memory_limit: u64,
    pub memory_percent_bits: u64,
    pub net_rx: u64,
    pub net_tx: u64,
    pub block_read: u64,
    pub block_write: u64,
    pub pids: u64,
}

impl Clone for StatEntry {
    fn clone(&self) -> (r: Self)
        ensures
            r == *self,
    {
        StatEntry {
            container_id: self.container_id.clone(),
            name: self.name.clone(),
            cpu_percent_bits: self.cpu_percent_bits,
            memory_usage: self.memory_usage,
            memory_limit: self.memory_limit,
            memory_percent_bits: self.memory_percent_bits,
            net_rx: self.net_rx,
            net_tx: self.net_tx,
            block_read: self.block_read,
            block_write: self.block_write,
            pids: self.pids,
        }
    }
}

/// A network as the networks view shows it.
#[derive(Debug, PartialEq)]
pub struct NetworkEntry {
    pub id: String,
    pub name: String,
    pub driver: String,
    pub scope: String,
    pub subnet: String,
    pub gateway: String,
    pub containers: usize,
}

impl Clone for NetworkEntry {
    fn clone(&self) -> (r: Self)
        ensures
            r == *self,
    {
        NetworkEntry {
            id: self.id.clone(),
            name: self.name.clone(),
            driver: self.driver.clone(),
            scope: self.scope.clone(),
            subnet: self.subnet.clone(),
            gateway: self.gateway.clone(),
            containers: self.containers,
        }
    }
}

/// A volume as the volumes view shows it.
#[derive(Debug, PartialEq)]
pub struct VolumeEntry {
    pub name: String,
    pub driver: String,
    pub mountpoint: String,
    pub size: i64,
}

impl Clone for VolumeEntry {
    fn clone(&self) -> (r: Self)
        ensures
            r == *self,
    {
        VolumeEntry {
            name: self.name.clone(),
            driver: self.driver.clone(),
            mountpoint: self.mountpoint.clone(),
            size: self.size,
        }
    }
}

/// Everything needed to create and start a container from an image.
#[derive(Debug, PartialEq)]
pub struct ContainerOpts {
    pub image: String,
    pub cmd: String,
    pub shell: String,
    pub user: String,
    pub workdir: String,
    pub env_vars: String,
    pub port_mapping: String,
    pub volumes: String,
    pub name: String,
    pub autoremove: bool,
    pub restart_policy: String,
    pub memory_limit: String,
    pub cpu_limit: String,
    pub network: String,
    pub labels: String,
    pub privileged: bool,
}

impl Clone for ContainerOpts {
    fn clone(&self) -> (r: Self)
        ensures
            r == *self,
    {
        ContainerOpts {
            image: self.image.clone(),
            cmd: self.cmd.clone(),
            shell: self.shell.clone(),
            user: self.user.clone(),
            workdir: self.workdir.clone(),
            env_vars: self.env_vars.clone(),
            port_mapping: self.port_mapping.clone(),
            volumes: self.volumes.clone(),
            name: self.name.clone(),
            autoremove: self.autoremove,
            restart_policy: self.restart_policy.clone(),
            memory_limit: self.memory_limit.clone(),
            cpu_limit: self.cpu_limit.clone(),
            network: self.network.clone(),
            labels: self.labels.clone(),
            privileged: self.privileged,
        }
    }
}


/// What a confirmation dialog does when the user answers yes.
#[derive(Debug, PartialEq)]
pub enum ConfirmAction {
    DeleteContainer(String),
    BatchDeleteContainers,
    RemoveImage(String),
    RemoveDanglingImages,
    PruneUnusedImages,
    RemoveNetwork(String),
    RemoveVolume(String),
    BatchDeleteImages,
    BatchDeleteNetworks,
    BatchDeleteVolumes,
    DeleteHostFile(String),
    DeleteContainerFile(String, String),
}

impl Clone for ConfirmAction {
    fn clone(&self) -> (r: Self)
        ensures
            r == *self,
    {
        match self {
            ConfirmAction::DeleteContainer(s) => ConfirmAction::DeleteContainer(s.clone()),
            ConfirmAction::BatchDeleteContainers => ConfirmAction::BatchDeleteContainers,
            ConfirmAction::RemoveImage(s) => ConfirmAction::RemoveImage(s.clone()),
            ConfirmAction::RemoveDanglingImages => ConfirmAction::RemoveDanglingImages,
            ConfirmAction::PruneUnusedImages => ConfirmAction::PruneUnusedImages,
            ConfirmAction::RemoveNetwork(s) => ConfirmAction::RemoveNetwork(s.clone()),
            ConfirmAction::RemoveVolume(s) => ConfirmAction::RemoveVolume(s.clone()),
            ConfirmAction::BatchDeleteImages => ConfirmAction::BatchDeleteImages,
            ConfirmAction::BatchDeleteNetworks => ConfirmAction::BatchDeleteNetworks,
            ConfirmAction::BatchDeleteVolumes => ConfirmAction::BatchDeleteVolumes,
            ConfirmAction::DeleteHostFile(s) => ConfirmAction::DeleteHostFile(s.clone()),
            ConfirmAction::DeleteContainerFile(a, b) => ConfirmAction::DeleteContainerFile(a.clone(), b.clone()),
        }
    }
}

/// The fields of the shell form.
#[derive(Clone, Copy, Debug, PartialEq, Eq, Structural)]
pub enum ShellConfigField {
    Shell,
    User,
    Workdir,
}

/// The fields of the image run form.
#[derive(Clone, Copy, Debug, PartialEq, Eq, Structural)]
pub enum ImageRunField {
    Command,
    Shell,
    User,
    Workdir,
    EnvVars,
    PortMapping,
    Volumes,
    ContainerName,
    RestartPolicy,
    MemoryLimit,
    CpuLimit,
    Network,
    Labels,
    Privileged,
}

/// What a mouse event was.
#[derive(Clone, Copy, Debug, PartialEq, Eq, Structural)]
pub enum MouseClickKind {
    Left,
    ScrollUp,
    ScrollDown,
}

/// Everything that can happen to the application: input from the user,
/// reports from the daemon and the clock.
#[derive(Debug)]
pub enum AppEvent {
    Navigate(Mode),
    Back,
    Quit,
    Tick,
    ShowHelp,
    HideHelp,
    ScrollHelp(i32),
    Error(String),
    Info(String),

    ShowConfirmDialog(String, ConfirmAction),
    ConfirmYes,
    ConfirmNo,

    DockerReconnecting,
    DockerReconnected,
    DockerConnectionLost(String),

    ContainersRefreshNeeded,
    ContainersUpdated(Vec<ContainerSummary>),
    SelectContainer(usize),
    FilterContainers(String),
    ActivateFilter,
    FilterSubmit(Option<usize>),
    RestartContainer(String),
    StopContainer(String),
    ContainerStopped(String),
    ContainerStarted(String),
    StartContainer(String),
    ContainerDeleted(String),
    ShowDetails,
    /// The inspected container as pretty-printed JSON, and its name.
    Inspected(String, String),
    ScrollDetails(i32),
    ToggleSelectionMode,
    ToggleSelectContainer(String),
    SelectAllContainers,
    BatchToggleContainers(Vec<String>),
    CycleStatusFilter,

    LogLines(String, Vec<LogEntry>),
    TogglePause,
    ActivateLogSearch,
    SearchLogs(String),
    SubmitLogSearch,
    ScrollLogs(i32),
    JumpTop,
    JumpBottom,
    ExportLogs(String),

    CloseShell,
    StartShell(String, String, String, String),

    ShellConfigSubmit,
    ShellConfigFieldUpdate(ShellConfigField, String),
    ShellConfigFocusNext,
    ShellConfigFocusPrev,

    ImagesUpdated(Vec<ImageEntry>),
    SelectImage(usize),
    FilterImages(String),
    ActivateImageFilter,
    PrunedImages(usize),
    RunImage(String, String),
    ImageRunFieldUpdate(ImageRunField, String),
    ImageRunToggleAutoremove,
    ImageRunToggleAdvanced,
    ImageRunFocusNext,
    ImageRunFocusPrev,
    ImageRunSubmit,

    CheckUpdate,
    UpdateAvailable(String, String),
    UpdateNotAvailable,

    EventsUpdated(Vec<DockerEvent>),
    ActivateEventsFilter,
    EventsFilterSubmit,
    FilterEvents(String),
    ScrollEvents(i32),
    ExportEvents,
    ToggleLogTimestamps,

    StatisticsUpdated(Vec<StatEntry>),
    NetworksUpdated(Vec<NetworkEntry>),
    SelectNetwork(usize),
    VolumesUpdated(Vec<VolumeEntry>),
    SelectVolume(usize),

    CycleSortStat(i32),
    ToggleSortDirection,

    ToggleColumnPicker,
    ToggleColumn(String),
    ToggleSelectResource(String),
    SelectAllResources,

    ToggleMouse,
    MouseClick { row: u16, col: u16, kind: MouseClickKind },

    ExplorerSelect,
    ExplorerCopyToContainer,
    ExplorerCopyFromContainer,
    ExplorerTransferComplete(String),
    ExplorerTransferError(String),
    ExplorerFilter(String),
    ExplorerContainerDirUpdated(String, String, Vec<ExplorerEntry>),
    ExplorerHostGoUp,
    ExplorerContainerGoUp,
    ExplorerHostSelect(usize),
    ExplorerContainerSelect(usize),
    ExplorerHostEnterDir(String),
    ExplorerContainerEnterDir(String),
    ExplorerHostRefresh,
    ExplorerContainerRefresh,
    ExplorerHostActivateFilter,
    ExplorerContainerActivateFilter,
    ExplorerFilterSubmit,
    ExplorerHostActivateRename,
    ExplorerContainerActivateRename,
    ExplorerRenameUpdate(String),
    ExplorerRenameCancel,
    ExplorerRenameSubmit,
    ExplorerHostDirUpdated(String, Vec<ExplorerEntry>),
    ExplorerHostToggleSelect,
    ExplorerContainerToggleSelect,
    ExplorerCopySelected,
    ExplorerDeleteSelected,
    ExplorerHostActivateCreate,
    ExplorerContainerActivateCreate,
    ExplorerCreateUpdate(String),
    ExplorerCreateCancel,
    ExplorerCreateSubmit,
    ExplorerHostActivateGoto,
    ExplorerContainerActivateGoto,
    ExplorerGotoUpdate(String),
    ExplorerGotoCancel,
    ExplorerGotoSubmit,
    ContainerWorkingDir(String, String),
}

/// Work the reducers hand to the runtime: calls to the daemon, file system
/// work and configuration writes.
#[derive(Debug, PartialEq)]
pub enum Command {
    RefreshContainers,
    InspectContainer(String),
    FetchLogs(String),
    /// Stop streaming the log of this container.
    AbortLogStream(String),
    StartContainer(String),
    StopContainer(String),
    RestartContainer(String),
    DeleteContainer(String),
    RemoveImage(String),
    RemoveDanglingImages,
    PruneUnusedImages,
    CreateContainer(ContainerOpts),
    RemoveNetwork(String),
    RemoveVolume(String),
    BatchToggleContainers(Vec<String>),
    BatchDeleteContainers(Vec<String>),
    BatchDeleteImages(Vec<String>),
    BatchDeleteNetworks(Vec<String>),
    BatchDeleteVolumes(Vec<String>),
    SaveConfig,
    CheckUpdate,
    DownloadUpdate { version: String, download_url: String },
    /// Write these lines to a file in the temporary directory, named by the
    /// stem and the extension `.log`.
    ExportLogs(String, Vec<String>),
    ListContainerDir(String, String),
    ListHostDir(String),
    ListVolumeDir(String, String),
    CopyToContainer(String, String, String),
    CopyFromContainer(String, String, String),
    DeleteHostFile(String),
    DeleteContainerFile(String, String),
    RenameHostFile(String, String),
    RenameContainerFile(String, String, String),
    CreateHostFile(String, bool),
    CreateContainerFile(String, String, bool),
    ToggleMouseCapture,
    RemoveVolumeHelper(String),
    FetchContainerWorkingDir(String),
}

} // verus!
