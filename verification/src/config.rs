//! User configuration: per-container shell settings, polling intervals,
//! visible columns and key bindings.

use vstd::prelude::*;
use crate::text::owned;
use crate::collections::ShellConfigMap;
use crate::keymap::KeyMap;

verus! {

/// The views of a list of strings.
pub open spec fn texts(v: Seq<String>) -> Seq<Seq<char>> {
    v.map_values(|s: String| s@)
}

/// A list holding the one string `a`.
pub fn one(a: &str) -> (r: Vec<String>)
    ensures
        texts(r@) == seq![a@],
{
    let mut v = Vec::new();
    v.push(owned(a));
    assert(texts(v@) =~= seq![a@]);
    v
}

/// A list holding the strings `a` and `b`.
pub fn two(a: &str, b: &str) -> (r: Vec<String>)
    ensures
        texts(r@) == seq![a@, b@],
{
    let mut v = Vec::new();
    v.push(owned(a));
    v.push(owned(b));
    assert(texts(v@) =~= seq![a@, b@]);
    v
}

/// The key strings bound to each action. Each action may have several keys;
/// the first one is the one shown in the help text.
#[derive(Debug)]
pub struct Keybindings {
    pub quit: Vec<String>,
    pub back: Vec<String>,
    pub help: Vec<String>,
    pub navigate_down: Vec<String>,
    pub navigate_up: Vec<String>,
    pub open_details: Vec<String>,
    pub open_logs: Vec<String>,
    pub open_shell: Vec<String>,
    pub start_stop: Vec<String>,
    pub restart: Vec<String>,
    pub delete: Vec<String>,
    pub search: Vec<String>,
    pub toggle_selection: Vec<String>,
    pub select_all: Vec<String>,
    pub navigate_images: Vec<String>,
    pub run_image: Vec<String>,
    pub remove_image: Vec<String>,
    pub remove_dangling_images: Vec<String>,
    pub prune_images: Vec<String>,
    pub jump_top: Vec<String>,
    pub jump_bottom: Vec<String>,
    pub sort_direction: Vec<String>,
    pub logs_export: Vec<String>,
    pub toggle_timestamps: Vec<String>,
    pub events_export: Vec<String>,
    pub statistics_sort: Vec<String>,
    pub statistics_sort_desc: Vec<String>,
}

impl Keybindings {
    /// The bindings a fresh configuration starts with.
    pub open spec fn is_default(self) -> bool {
        &&& texts(self.quit@) == seq!["q"@]
        &&& texts(self.back@) == seq!["Esc"@]
        &&& texts(self.help@) == seq!["?"@]
        &&& texts(self.navigate_down@) == seq!["j"@, "Down"@]
        &&& texts(self.navigate_up@) == seq!["k"@, "Up"@]
        &&& texts(self.open_details@) == seq!["Enter"@]
        &&& texts(self.open_logs@) == seq!["l"@]
        &&& texts(self.open_shell@) == seq!["s"@]
        &&& texts(self.start_stop@) == seq!["t"@]
        &&& texts(self.restart@) == seq!["r"@]
        &&& texts(self.delete@) == seq!["d"@]
        &&& texts(self.search@) == seq!["/"@]
        &&& texts(self.toggle_selection@) == seq![" "@]
        &&& texts(self.select_all@) == seq!["Ctrl+A"@]
        &&& texts(self.navigate_images@) == seq!["j"@, "Down"@]
        &&& texts(self.run_image@) == seq!["r"@]
        &&& texts(self.remove_image@) == seq!["d"@]
        &&& texts(self.remove_dangling_images@) == seq!["D"@]
        &&& texts(self.prune_images@) == seq!["p"@]
        &&& texts(self.jump_top@) == seq!["g"@]
        &&& texts(self.jump_bottom@) == seq!["G"@]
        &&& texts(self.sort_direction@) == seq!["Ctrl+T"@]
        &&& texts(self.logs_export@) == seq!["Ctrl+S"@]
        &&& texts(self.toggle_timestamps@) == seq!["T"@]
        &&& texts(self.events_export@) == seq!["s"@]
        &&& texts(self.statistics_sort@) == seq!["s"@]
        &&& texts(self.statistics_sort_desc@) == seq!["t"@]
    }
}

impl Default for Keybindings {
    fn default() -> (r: Self)
        ensures
            r.is_default(),
    {
        Keybindings {
            quit: one("q"),
            back: one("Esc"),
            help: one("?"),
            navigate_down: two("j", "Down"),
            navigate_up: two("k", "Up"),
            open_details: one("Enter"),
            open_logs: one("l"),
            open_shell: one("s"),
            start_stop: one("t"),
            restart: one("r"),
            delete: one("d"),
            search: one("/"),
            toggle_selection: one(" "),
            select_all: one("Ctrl+A"),
            navigate_images: two("j", "Down"),
            run_image: one("r"),
            remove_image: one("d"),
            remove_dangling_images: one("D"),
            prune_images: one("p"),
            jump_top: one("g"),
            jump_bottom: one("G"),
            sort_direction: one("Ctrl+T"),
            logs_export: one("Ctrl+S"),
            toggle_timestamps: one("T"),
            events_export: one("s"),
            statistics_sort: one("s"),
            statistics_sort_desc: one("t"),
        }
    }
}


/// Shell settings remembered for one container or image.
#[derive(Debug, PartialEq)]
pub struct ContainerShellConfig {
    pub shell: Option<String>,
    pub user: Option<String>,
    pub workdir: Option<String>,
}

fn clone_opt(o: &Option<String>) -> (r: Option<String>)
    ensures
        r == *o,
{
    match o {
        Some(s) => Some(s.clone()),
        None => None,
    }
}

impl Clone for ContainerShellConfig {
    fn clone(&self) -> (r: Self)
        ensures
            r == *self,
    {
        ContainerShellConfig {
            shell: clone_opt(&self.shell),
            user: clone_opt(&self.user),
            workdir: clone_opt(&self.workdir),
        }
    }
}

impl Default for ContainerShellConfig {
    fn default() -> (r: Self)
        ensures
            r == (ContainerShellConfig { shell: None, user: None, workdir: None }),
    {
        ContainerShellConfig { shell: None, user: None, workdir: None }
    }
}

/// How often each list is refreshed from the daemon, in milliseconds.
#[derive(Clone, Copy, Debug, PartialEq, Eq, Structural)]
pub struct PollingIntervals {
    pub containers_ms: u64,
    pub statistics_ms: u64,
    pub images_ms: u64,
    pub networks_ms: u64,
    pub volumes_ms: u64,
}

/// The shortest polling interval accepted.
pub const MIN_POLL_MS: u64 = 500;

/// The longest polling interval accepted.
pub const MAX_POLL_MS: u64 = 60000;

/// `v` brought into `[MIN_POLL_MS, MAX_POLL_MS]` (`u64::clamp`).
pub open spec fn clamp_ms(v: u64) -> u64 {
    if v < MIN_POLL_MS { MIN_POLL_MS } else if v > MAX_POLL_MS { MAX_POLL_MS } else { v }
}

/// Whether every interval lies within the accepted bounds.
pub open spec fn intervals_in_bounds(p: PollingIntervals) -> bool {
    &&& MIN_POLL_MS <= p.containers_ms <= MAX_POLL_MS
    &&& MIN_POLL_MS <= p.statistics_ms <= MAX_POLL_MS
    &&& MIN_POLL_MS <= p.images_ms <= MAX_POLL_MS
    &&& MIN_POLL_MS <= p.networks_ms <= MAX_POLL_MS
    &&& MIN_POLL_MS <= p.volumes_ms <= MAX_POLL_MS
}

fn clamp_exec(v: u64) -> (r: u64)
    ensures
        r == clamp_ms(v),
{
    if v < MIN_POLL_MS { MIN_POLL_MS } else if v > MAX_POLL_MS { MAX_POLL_MS } else { v }
}

impl PollingIntervals {
    /// Brings every interval into the accepted bounds.
    pub fn clamp(&mut self)
        ensures
            final(self).containers_ms == clamp_ms(old(self).containers_ms),
            final(self).statistics_ms == clamp_ms(old(self).statistics_ms),
            final(self).images_ms == clamp_ms(old(self).images_ms),
            final(self).networks_ms == clamp_ms(old(self).networks_ms),
            final(self).volumes_ms == clamp_ms(old(self).volumes_ms),
            intervals_in_bounds(*final(self)),
    {
        self.containers_ms = clamp_exec(self.containers_ms);
        self.statistics_ms = clamp_exec(self.statistics_ms);
        self.images_ms = clamp_exec(self.images_ms);
        self.networks_ms = clamp_exec(self.networks_ms);
        self.volumes_ms = clamp_exec(self.volumes_ms);
    }
}

/// Clamping changes nothing when every interval is already in bounds, so a
/// second clamp changes nothing either.
pub proof fn lemma_clamp_idempotent(v: u64)
    ensures
        clamp_ms(clamp_ms(v)) == clamp_ms(v),
        MIN_POLL_MS <= v <= MAX_POLL_MS ==> clamp_ms(v) == v,
{
}

impl Default for PollingIntervals {
    fn default() -> (r: Self)
        ensures
            r == (PollingIntervals {
                containers_ms: 2000,
                statistics_ms: 2000,
                images_ms: 10000,
                networks_ms: 10000,
                volumes_ms: 10000,
            }),
    {
        PollingIntervals {
            containers_ms: 2000,
            statistics_ms: 2000,
            images_ms: 10000,
            networks_ms: 10000,
            volumes_ms: 10000,
        }
    }
}

/// The visible columns of the containers view.
#[derive(Clone, Copy, Debug, PartialEq, Eq, Structural)]
pub struct ContainerColumns {
    pub show_name: bool,
    pub show_image: bool,
    pub show_state: bool,
    pub show_ports: bool,
}

impl Default for ContainerColumns {
    fn default() -> (r: Self)
        ensures
            r == (ContainerColumns { show_name: true, show_image: true, show_state: true, show_ports: true }),
    {
        ContainerColumns { show_name: true, show_image: true, show_state: true, show_ports: true }
    }
}

/// The visible columns of the images view.
#[derive(Clone, Copy, Debug, PartialEq, Eq, Structural)]
pub struct ImageColumns {
    pub show_repository: bool,
    pub show_tag: bool,
    pub show_id: bool,
    pub show_size: bool,
}

impl Default for ImageColumns {
    fn default() -> (r: Self)
        ensures
            r == (ImageColumns { show_repository: true, show_tag: true, show_id: true, show_size: true }),
    {
        ImageColumns { show_repository: true, show_tag: true, show_id: true, show_size: true }
    }
}

/// The visible columns of the networks view.
#[derive(Clone, Copy, Debug, PartialEq, Eq, Structural)]
pub struct NetworkColumns {
    pub show_name: bool,
    pub show_id: bool,
    pub show_driver: bool,
    pub show_scope: bool,
    pub show_ipam: bool,
}

impl Default for NetworkColumns {
    fn default() -> (r: Self)
        ensures
            r == (NetworkColumns { show_name: true, show_id: true, show_driver: true, show_scope: true, show_ipam: true }),
    {
        NetworkColumns { show_name: true, show_id: true, show_driver: true, show_scope: true, show_ipam: true }
    }
}

/// The visible columns of the volumes view.
#[derive(Clone, Copy, Debug, PartialEq, Eq, Structural)]
pub struct VolumeColumns {
    pub show_name: bool,
    pub show_driver: bool,
    pub show_mountpoint: bool,
    pub show_size: bool,
}

impl Default for VolumeColumns {
    fn default() -> (r: Self)
        ensures
            r == (VolumeColumns { show_name: true, show_driver: true, show_mountpoint: true, show_size: true }),
    {
        VolumeColumns { show_name: true, show_driver: true, show_mountpoint: true, show_size: true }
    }
}

/// The value a missing `mouse` setting takes.
pub fn default_true() -> (r: bool)
    ensures
        r,
{
    true
}

/// The first key bound to an action, or the empty string.
pub fn key_first(keys: &Vec<String>) -> (r: String)
    ensures
        r@ == (if keys@.len() > 0 { keys@[0]@ } else { Seq::empty() }),
{
    if keys.len() > 0 {
        keys[0].clone()
    } else {
        String::new()
    }
}

/// The whole configuration.
#[derive(Debug)]
pub struct OmdockerConfig {
    pub latest_shell: Option<String>,
    pub containers: ShellConfigMap,
    pub images: ShellConfigMap,
    pub check_updates: Option<bool>,
    pub keybindings: Keybindings,
    pub polling: PollingIntervals,
    pub container_columns: ContainerColumns,
    pub image_columns: ImageColumns,
    pub network_columns: NetworkColumns,
    pub volume_columns: VolumeColumns,
    pub mouse: bool,
}

impl OmdockerConfig {
    /// The key map of the configured bindings.
    pub fn keymap(&self) -> (r: KeyMap)
        ensures
            r.built_from(self.keybindings),
    {
        KeyMap::from_keybindings(&self.keybindings)
    }
}

impl OmdockerConfig {
    /// The configuration used when there is no file: bash as the shell, no
    /// remembered shells, no update choice, the default bindings, polling
    /// intervals and columns, and the mouse on.
    pub open spec fn is_default_config(&self) -> bool {
        &&& self.latest_shell matches Some(s) && s@ == "bash"@
        &&& self.containers@ == Map::<Seq<char>, ContainerShellConfig>::empty()
        &&& self.images@ == Map::<Seq<char>, ContainerShellConfig>::empty()
        &&& self.check_updates is None
        &&& self.keybindings.is_default()
        &&& self.polling == (PollingIntervals {
            containers_ms: 2000,
            statistics_ms: 2000,
            images_ms: 10000,
            networks_ms: 10000,
            volumes_ms: 10000,
        })
        &&& self.container_columns == (ContainerColumns { show_name: true, show_image: true, show_state: true, show_ports: true })
        &&& self.image_columns == (ImageColumns { show_repository: true, show_tag: true, show_id: true, show_size: true })
        &&& self.network_columns == (NetworkColumns { show_name: true, show_id: true, show_driver: true, show_scope: true, show_ipam: true })
        &&& self.volume_columns == (VolumeColumns { show_name: true, show_driver: true, show_mountpoint: true, show_size: true })
        &&& self.mouse
    }
}

impl Default for OmdockerConfig {
    fn default() -> (r: Self)
        ensures
            r.latest_shell matches Some(s) && s@ == "bash"@,
            r.containers@ == Map::<Seq<char>, ContainerShellConfig>::empty(),
            r.images@ == Map::<Seq<char>, ContainerShellConfig>::empty(),
            r.check_updates is None,
            r.keybindings.is_default(),
            r.polling == (PollingIntervals {
                containers_ms: 2000,
                statistics_ms: 2000,
                images_ms: 10000,
                networks_ms: 10000,
                volumes_ms: 10000,
            }),
            r.container_columns == (ContainerColumns { show_name: true, show_image: true, show_state: true, show_ports: true }),
            r.image_columns == (ImageColumns { show_repository: true, show_tag: true, show_id: true, show_size: true }),
            r.network_columns == (NetworkColumns { show_name: true, show_id: true, show_driver: true, show_scope: true, show_ipam: true }),
            r.volume_columns == (VolumeColumns { show_name: true, show_driver: true, show_mountpoint: true, show_size: true }),
            r.mouse,
    {
        OmdockerConfig {
            latest_shell: Some(owned("bash")),
            containers: ShellConfigMap::new(),
            images: ShellConfigMap::new(),
            check_updates: None,
            keybindings: Keybindings::default(),
            polling: PollingIntervals::default(),
            container_columns: ContainerColumns::default(),
            image_columns: ImageColumns::default(),
            network_columns: NetworkColumns::default(),
            volume_columns: VolumeColumns::default(),
            mouse: true,
        }
    }
}

} // verus!
