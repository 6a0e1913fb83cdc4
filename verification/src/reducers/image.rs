//! The images view and the form that creates a container from an image.

use vstd::prelude::*;
use crate::config::{ContainerShellConfig, ImageColumns, OmdockerConfig};
use crate::event::{AppEvent, Command, ContainerOpts, ImageRunField};
use crate::mode::{popped, pushed, Mode};
use crate::reducers::{column_nav, handle_column_nav, image_base, image_base_name};
use crate::reducers::navigation::{first_of, stack, stored};
use crate::resource::{clamp_selected, shown_indices, ImageResource, ResourceState};
use crate::state::{AppState, ImageRunState, NavigationState};
use crate::text::{
    chars_of, concat, owned, parse_u16_ok, parses_as_u16, push_decimal, decimal, split_chars, split_seq,
    str_eq, string_of, trim_chars, trim_seq,
};

verus! {

/// The image list refiltered by its text filter, everything else as before.
pub open spec fn images_refiltered(i0: ResourceState<ImageResource>, i1: ResourceState<ImageResource>) -> bool {
    let rows = shown_indices::<ImageResource>(i0.items@, i0.items@.len() as int, Seq::empty(), i0.filter@);
    &&& i1 == ResourceState { filtered: i1.filtered, selected: clamp_selected(i0.selected, rows.len()), ..i0 }
    &&& i1.filtered@ == rows
    &&& i1.wf()
}

fn refilter_images(images: &mut ResourceState<ImageResource>)
    ensures
        images_refiltered(*old(images), *final(images)),
{
    proof {
        reveal_strlit("");
        assert(""@ =~= Seq::<char>::empty());
    }
    images.apply_filter("");
}

/// The run form opened for `repo:tag`: shell, user and working directory
/// come from the settings saved for the repository, the shell else from the
/// last shell used ("bash" if none); the other fields start empty, with
/// auto-remove on.
pub open spec fn run_form_for(s: AppState, repo: Seq<char>, tag: Seq<char>, run: ImageRunState) -> bool {
    let per_image = stored(s.config.images@, repo);
    let latest = match s.config.latest_shell { Some(l) => l@, None => "bash"@ };
    &&& run.image_id@ == repo + ":"@ + tag
    &&& run.command@.len() == 0
    &&& run.shell@ == first_of(per_image.shell, None, latest)
    &&& run.user@ == first_of(per_image.user, None, Seq::empty())
    &&& run.workdir@ == first_of(per_image.workdir, None, Seq::empty())
    &&& run.env_vars@.len() == 0
    &&& run.port_mapping@.len() == 0
    &&& run.volumes@.len() == 0
    &&& run.container_name@.len() == 0
    &&& run.autoremove
    &&& run.restart_policy@.len() == 0
    &&& run.memory_limit@.len() == 0
    &&& run.cpu_limit@.len() == 0
    &&& run.network@.len() == 0
    &&& run.labels@.len() == 0
    &&& !run.privileged
    &&& run.field_focus == 0
    &&& run.validation_errors@.len() == 0
    &&& !run.show_advanced
}

fn text_or(o: &Option<String>, fallback: &str) -> (r: String)
    ensures
        r@ == first_of(*o, None, fallback@),
{
    match o {
        Some(s) => s.clone(),
        None => owned(fallback),
    }
}

fn run_form(s: &AppState, repo: &String, tag: &String) -> (r: ImageRunState)
    ensures
        run_form_for(*s, repo@, tag@, r),
{
    let per_image = match s.config.images.get(repo.as_str()) {
        Some(c) => c.clone(),
        None => ContainerShellConfig { shell: None, user: None, workdir: None },
    };
    let latest = match &s.config.latest_shell {
        Some(l) => l.clone(),
        None => owned("bash"),
    };
    let with_colon = concat(repo.as_str(), ":");
    let image_id = concat(with_colon.as_str(), tag.as_str());
    let shell = text_or(&per_image.shell, latest.as_str());
    let user = text_or(&per_image.user, "");
    let workdir = text_or(&per_image.workdir, "");
    proof {
        reveal_strlit("");
        assert(""@ =~= Seq::<char>::empty());
    }
    ImageRunState {
        image_id,
        command: String::new(),
        shell,
        user,
        workdir,
        env_vars: String::new(),
        port_mapping: String::new(),
        volumes: String::new(),
        container_name: String::new(),
        autoremove: true,
        restart_policy: String::new(),
        memory_limit: String::new(),
        cpu_limit: String::new(),
        network: String::new(),
        labels: String::new(),
        privileged: false,
        field_focus: 0,
        validation_errors: Vec::new(),
        show_advanced: false,
    }
}

/// The run form after the user typed `value` into `field` (the privileged
/// field is a switch and flips instead).
pub open spec fn run_field_updated(r: ImageRunState, field: ImageRunField, value: String) -> ImageRunState {
    match field {
        ImageRunField::Command => ImageRunState { command: value, ..r },
        ImageRunField::Shell => ImageRunState { shell: value, ..r },
        ImageRunField::User => ImageRunState { user: value, ..r },
        ImageRunField::Workdir => ImageRunState { workdir: value, ..r },
        ImageRunField::EnvVars => ImageRunState { env_vars: value, ..r },
        ImageRunField::PortMapping => ImageRunState { port_mapping: value, ..r },
        ImageRunField::Volumes => ImageRunState { volumes: value, ..r },
        ImageRunField::ContainerName => ImageRunState { container_name: value, ..r },
        ImageRunField::RestartPolicy => ImageRunState { restart_policy: value, ..r },
        ImageRunField::MemoryLimit => ImageRunState { memory_limit: value, ..r },
        ImageRunField::CpuLimit => ImageRunState { cpu_limit: value, ..r },
        ImageRunField::Network => ImageRunState { network: value, ..r },
        ImageRunField::Labels => ImageRunState { labels: value, ..r },
        ImageRunField::Privileged => ImageRunState { privileged: !r.privileged, ..r },
    }
}

fn update_run_field(run: &mut ImageRunState, field: ImageRunField, value: &String)
    ensures
        *final(run) == run_field_updated(*old(run), field, *value),
{
    match field {
        ImageRunField::Command => run.command = value.clone(),
        ImageRunField::Shell => run.shell = value.clone(),
        ImageRunField::User => run.user = value.clone(),
        ImageRunField::Workdir => run.workdir = value.clone(),
        ImageRunField::EnvVars => run.env_vars = value.clone(),
        ImageRunField::PortMapping => run.port_mapping = value.clone(),
        ImageRunField::Volumes => run.volumes = value.clone(),
        ImageRunField::ContainerName => run.container_name = value.clone(),
        ImageRunField::RestartPolicy => run.restart_policy = value.clone(),
        ImageRunField::MemoryLimit => run.memory_limit = value.clone(),
        ImageRunField::CpuLimit => run.cpu_limit = value.clone(),
        ImageRunField::Network => run.network = value.clone(),
        ImageRunField::Labels => run.labels = value.clone(),
        ImageRunField::Privileged => run.privileged = !run.privileged,
    }
}

/// How many fields the run form shows: the advanced ones only on request.
pub open spec fn field_count(show_advanced: bool) -> usize {
    if show_advanced { 15 } else { 9 }
}

/// The error shown for a port line with too many ':'.
pub open spec fn bad_port_msg(line: Seq<char>) -> Seq<char> {
    "Invalid port '"@ + line + "': use HOST:CONTAINER or CONTAINER"@
}

/// The error shown for a container port that is not a 16-bit number.
pub open spec fn bad_container_port_msg(port: Seq<char>, line: Seq<char>) -> Seq<char> {
    "Invalid container port '"@ + port + "' in '"@ + line + "': must be a number"@
}

/// The error shown for a volume line without ':'.
pub open spec fn bad_volume_msg(line: Seq<char>) -> Seq<char> {
    "Invalid volume '"@ + line + "': must be HOST:CONTAINER[:ro|:rw]"@
}

/// The row of the form that the port and volume errors point at.
pub const PORT_FIELD: usize = 5;

/// The row of the form that the volume errors point at.
pub const VOLUME_FIELD: usize = 6;

/// The errors of one trimmed, non-empty port line: at most three
/// ':'-separated parts, the last one (trimmed) a 16-bit number.
pub open spec fn port_line_errors(line: Seq<char>) -> Seq<(usize, Seq<char>)> {
    let parts = split_seq(line, ':');
    if parts.len() > 3 {
        seq![(PORT_FIELD, bad_port_msg(line))]
    } else {
        let port = trim_seq(parts.last());
        if parses_as_u16(port) { Seq::empty() } else { seq![(PORT_FIELD, bad_container_port_msg(port, line))] }
    }
}

/// The errors of the port lines, in order; blank lines are skipped.
pub open spec fn port_errors(lines: Seq<Seq<char>>) -> Seq<(usize, Seq<char>)>
    decreases lines.len(),
{
    if lines.len() == 0 {
        Seq::empty()
    } else {
        let line = trim_seq(lines.last());
        port_errors(lines.drop_last()) + (if line.len() == 0 { Seq::empty() } else { port_line_errors(line) })
    }
}

/// The errors of the volume lines, in order: a non-blank line must hold ':'.
pub open spec fn volume_errors(lines: Seq<Seq<char>>) -> Seq<(usize, Seq<char>)>
    decreases lines.len(),
{
    if lines.len() == 0 {
        Seq::empty()
    } else {
        let line = trim_seq(lines.last());
        volume_errors(lines.drop_last()) + (if line.len() == 0 || line.contains(':') {
            Seq::empty()
        } else {
            seq![(VOLUME_FIELD, bad_volume_msg(line))]
        })
    }
}

/// All errors of a run form: those of its port lines, then those of its
/// volume lines.
pub open spec fn run_errors(port_mapping: Seq<char>, volumes: Seq<char>) -> Seq<(usize, Seq<char>)> {
    port_errors(split_seq(port_mapping, '\n')) + volume_errors(split_seq(volumes, '\n'))
}

/// The errors of a list as row and text.
pub open spec fn errors_view(v: Seq<(usize, String)>) -> Seq<(usize, Seq<char>)> {
    v.map_values(|e: (usize, String)| (e.0, e.1@))
}

fn has_char(v: &Vec<char>, c: char) -> (r: bool)
    ensures
        r == v@.contains(c),
{
    let mut i: usize = 0;
    while i < v.len()
        invariant
            i <= v@.len(),
            forall|k: int| 0 <= k < i ==> v@[k] != c,
        decreases v@.len() - i,
    {
        if v[i] == c {
            assert(v@[i as int] == c);
            return true;
        }
        i = i + 1;
    }
    false
}

fn check_port_line(line: &Vec<char>, errors: &mut Vec<(usize, String)>)
    ensures
        errors_view(final(errors)@) == errors_view(old(errors)@) + port_line_errors(line@),
{
    let parts = split_chars(line, ':');
    let ghost pv = split_seq(line@, ':');
    assert(parts@.map_values(|p: Vec<char>| p@) == pv);
    let text = string_of(line.as_slice());
    if parts.len() > 3 {
        let m = concat("Invalid port '", text.as_str());
        let m = concat(m.as_str(), "': use HOST:CONTAINER or CONTAINER");
        errors.push((PORT_FIELD, m));
        assert(errors_view(errors@) =~= errors_view(old(errors)@) + port_line_errors(line@));
    } else {
        let last = &parts[parts.len() - 1];
        assert(last@ == pv.last());
        let port = trim_chars(last);
        if !parse_u16_ok(&port) {
            let p = string_of(port.as_slice());
            let m = concat("Invalid container port '", p.as_str());
            let m = concat(m.as_str(), "' in '");
            let m = concat(m.as_str(), text.as_str());
            let m = concat(m.as_str(), "': must be a number");
            errors.push((PORT_FIELD, m));
            assert(errors_view(errors@) =~= errors_view(old(errors)@) + port_line_errors(line@));
        } else {
            assert(errors_view(errors@) =~= errors_view(old(errors)@) + port_line_errors(line@));
        }
    }
}

fn check_ports(text: &String, errors: &mut Vec<(usize, String)>)
    ensures
        errors_view(final(errors)@) == errors_view(old(errors)@) + port_errors(split_seq(text@, '\n')),
{
    let cs = chars_of(text.as_str());
    let lines = split_chars(&cs, '\n');
    let ghost lv = split_seq(text@, '\n');
    let mut i: usize = 0;
    while i < lines.len()
        invariant
            i <= lines@.len(),
            lines@.map_values(|p: Vec<char>| p@) == lv,
            errors_view(errors@) == errors_view(old(errors)@) + port_errors(lv.subrange(0, i as int)),
        decreases lines@.len() - i,
    {
        let ghost before = errors_view(errors@);
        assert(lv.subrange(0, i + 1).drop_last() =~= lv.subrange(0, i as int));
        assert(lines@[i as int]@ == lv[i as int]);
        let line = trim_chars(&lines[i]);
        if line.len() > 0 {
            check_port_line(&line, errors);
        }
        assert(errors_view(errors@) =~= errors_view(old(errors)@) + port_errors(lv.subrange(0, i + 1)));
        i = i + 1;
    }
    assert(lv.subrange(0, i as int) =~= lv);
}

fn check_volumes(text: &String, errors: &mut Vec<(usize, String)>)
    ensures
        errors_view(final(errors)@) == errors_view(old(errors)@) + volume_errors(split_seq(text@, '\n')),
{
    let cs = chars_of(text.as_str());
    let lines = split_chars(&cs, '\n');
    let ghost lv = split_seq(text@, '\n');
    let mut i: usize = 0;
    while i < lines.len()
        invariant
            i <= lines@.len(),
            lines@.map_values(|p: Vec<char>| p@) == lv,
            errors_view(errors@) == errors_view(old(errors)@) + volume_errors(lv.subrange(0, i as int)),
        decreases lines@.len() - i,
    {
        assert(lv.subrange(0, i + 1).drop_last() =~= lv.subrange(0, i as int));
        assert(lines@[i as int]@ == lv[i as int]);
        let ghost before = errors@;
        let line = trim_chars(&lines[i]);
        let ghost tail = (if line@.len() == 0 || line@.contains(':') {
            Seq::<(usize, Seq<char>)>::empty()
        } else {
            seq![(VOLUME_FIELD, bad_volume_msg(line@))]
        });
        assert(volume_errors(lv.subrange(0, i + 1)) == volume_errors(lv.subrange(0, i as int)) + tail);
        if line.len() > 0 && !has_char(&line, ':') {
            let t = string_of(line.as_slice());
            let m = concat("Invalid volume '", t.as_str());
            let m = concat(m.as_str(), "': must be HOST:CONTAINER[:ro|:rw]");
            errors.push((VOLUME_FIELD, m));
            assert(errors@ == before.push((VOLUME_FIELD, m)));
            assert(errors_view(errors@) =~= errors_view(before).push((VOLUME_FIELD, bad_volume_msg(line@))));
        } else {
            assert(tail =~= Seq::<(usize, Seq<char>)>::empty());
        }
        assert(errors_view(errors@) =~= errors_view(old(errors)@) + volume_errors(lv.subrange(0, i + 1)));
        i = i + 1;
    }
    assert(lv.subrange(0, i as int) =~= lv);
}

/// Checks the port and volume lines of a run form (see [`run_errors`]).
pub fn validate_run(port_mapping: &String, volumes: &String) -> (r: Vec<(usize, String)>)
    ensures
        errors_view(r@) == run_errors(port_mapping@, volumes@),
{
    let mut errors: Vec<(usize, String)> = Vec::new();
    assert(errors_view(errors@) =~= Seq::<(usize, Seq<char>)>::empty());
    check_ports(port_mapping, &mut errors);
    check_volumes(volumes, &mut errors);
    assert(errors_view(errors@) =~= run_errors(port_mapping@, volumes@));
    errors
}

/// `None` for an empty text, else the text.
pub open spec fn non_empty(s: String) -> Option<String> {
    if s@.len() == 0 { None } else { Some(s) }
}

pub(crate) fn non_empty_exec(s: &String) -> (r: Option<String>)
    ensures
        r == non_empty(*s),
{
    if s.as_str().is_empty() { None } else { Some(s.clone()) }
}

/// The shell settings a submitted run form saves for its image.
pub open spec fn saved_settings(run: ImageRunState) -> ContainerShellConfig {
    ContainerShellConfig { shell: non_empty(run.shell), user: non_empty(run.user), workdir: non_empty(run.workdir) }
}

/// The container a submitted run form asks for.
pub open spec fn opts_of(run: ImageRunState) -> ContainerOpts {
    ContainerOpts {
        image: run.image_id,
        cmd: run.command,
        shell: run.shell,
        user: run.user,
        workdir: run.workdir,
        env_vars: run.env_vars,
        port_mapping: run.port_mapping,
        volumes: run.volumes,
        name: run.container_name,
        autoremove: run.autoremove,
        restart_policy: run.restart_policy,
        memory_limit: run.memory_limit,
        cpu_limit: run.cpu_limit,
        network: run.network,
        labels: run.labels,
        privileged: run.privileged,
    }
}

fn opts_exec(run: &ImageRunState) -> (r: ContainerOpts)
    ensures
        r == opts_of(*run),
{
    ContainerOpts {
        image: run.image_id.clone(),
        cmd: run.command.clone(),
        shell: run.shell.clone(),
        user: run.user.clone(),
        workdir: run.workdir.clone(),
        env_vars: run.env_vars.clone(),
        port_mapping: run.port_mapping.clone(),
        volumes: run.volumes.clone(),
        name: run.container_name.clone(),
        autoremove: run.autoremove,
        restart_policy: run.restart_policy.clone(),
        memory_limit: run.memory_limit.clone(),
        cpu_limit: run.cpu_limit.clone(),
        network: run.network.clone(),
        labels: run.labels.clone(),
        privileged: run.privileged,
    }
}

/// The image columns after toggling the one named `name`.
pub open spec fn toggled_image_column(c: ImageColumns, name: Seq<char>) -> ImageColumns {
    if name == "repository"@ { ImageColumns { show_repository: !c.show_repository, ..c } }
    else if name == "tag"@ { ImageColumns { show_tag: !c.show_tag, ..c } }
    else if name == "id"@ { ImageColumns { show_id: !c.show_id, ..c } }
    else if name == "size"@ { ImageColumns { show_size: !c.show_size, ..c } }
    else { c }
}

fn toggle_image_column(columns: &mut ImageColumns, name: &str)
    ensures
        *final(columns) == toggled_image_column(*old(columns), name@),
{
    if str_eq(name, "repository") {
        columns.show_repository = !columns.show_repository;
    } else if str_eq(name, "tag") {
        columns.show_tag = !columns.show_tag;
    } else if str_eq(name, "id") {
        columns.show_id = !columns.show_id;
    } else if str_eq(name, "size") {
        columns.show_size = !columns.show_size;
    }
}

/// The state with only the run form replaced.
pub open spec fn with_run(s0: AppState, run: Option<ImageRunState>) -> AppState {
    AppState { navigation: NavigationState { image_run: run, ..s0.navigation }, ..s0 }
}

/// What the images reducer does with each event it handles; other events
/// change nothing.
pub open spec fn image_post(s0: AppState, event: AppEvent, now: u64, s1: AppState, cmds: Seq<Command>) -> bool {
    let i0 = s0.images;
    match event {
        AppEvent::ImagesUpdated(list) => {
            let mid = ResourceState { items: s1.images.items, loading: false, last_updated: Some(now), ..i0 };
            &&& s1.images.items@ == list@
            &&& s1 == AppState { images: s1.images, ..s0 }
            &&& images_refiltered(mid, s1.images)
            &&& cmds.len() == 0
        },
        AppEvent::SelectImage(idx) => cmds.len() == 0 && if idx < i0.filtered@.len() {
            s1 == AppState { images: ResourceState { selected: idx, ..i0 }, ..s0 }
        } else {
            s1 == s0
        },
        AppEvent::FilterImages(q) => {
            let mid = ResourceState { filter: q, filter_active: if q@.len() == 0 { false } else { i0.filter_active }, ..i0 };
            &&& s1 == AppState { images: s1.images, ..s0 }
            &&& images_refiltered(mid, s1.images)
            &&& cmds.len() == 0
        },
        AppEvent::ActivateImageFilter => s1 == AppState { images: ResourceState { filter_active: true, ..i0 }, ..s0 } && cmds.len() == 0,
        AppEvent::PrunedImages(count) => {
            &&& s1 == AppState { error: s1.error, error_timer: 10, ..s0 }
            &&& s1.error matches Some(e) && e@ == "Pruned "@ + decimal(count as nat) + " unused images"@
            &&& cmds.len() == 0
        },
        AppEvent::RunImage(repo, tag) => {
            &&& s1 == AppState {
                navigation: NavigationState { mode_stack: s1.navigation.mode_stack, image_run: s1.navigation.image_run, ..s0.navigation },
                ..s0
            }
            &&& s1.navigation.image_run matches Some(run) && run_form_for(s0, repo@, tag@, run)
                && stack(s1) == pushed(stack(s0), Mode::ImageRun(run.image_id))
            &&& cmds.len() == 0
        },
        AppEvent::ImageRunFieldUpdate(field, value) => cmds.len() == 0 && match s0.navigation.image_run {
            Some(run) => s1 == with_run(s0, Some(run_field_updated(run, field, value))),
            None => s1 == s0,
        },
        AppEvent::ImageRunToggleAutoremove => cmds.len() == 0 && match s0.navigation.image_run {
            Some(run) => s1 == with_run(s0, Some(ImageRunState { autoremove: !run.autoremove, ..run })),
            None => s1 == s0,
        },
        AppEvent::ImageRunToggleAdvanced => cmds.len() == 0 && match s0.navigation.image_run {
            Some(run) => s1 == with_run(s0, Some(ImageRunState {
                show_advanced: !run.show_advanced,
                field_focus: if run.show_advanced && run.field_focus >= 9 { 0 } else { run.field_focus },
                ..run
            })),
            None => s1 == s0,
        },
        AppEvent::ImageRunFocusNext => cmds.len() == 0 && match s0.navigation.image_run {
            Some(run) => s1 == with_run(s0, Some(ImageRunState {
                field_focus: ((run.field_focus + 1) % (field_count(run.show_advanced) as int)) as usize,
                ..run
            })),
            None => s1 == s0,
        },
        AppEvent::ImageRunFocusPrev => cmds.len() == 0 && match s0.navigation.image_run {
            Some(run) => s1 == with_run(s0, Some(ImageRunState {
                field_focus: if run.field_focus == 0 { (field_count(run.show_advanced) - 1) as usize } else { (run.field_focus - 1) as usize },
                ..run
            })),
            None => s1 == s0,
        },
        AppEvent::ToggleColumnPicker => s1 == AppState {
            images: ResourceState { show_column_picker: !i0.show_column_picker, ..i0 },
            ..s0
        } && cmds.len() == 0,
        AppEvent::ToggleColumn(name) => if i0.show_column_picker {
            &&& s1 == AppState {
                images: ResourceState { column_picker_selection: column_nav(name@, 4, i0.column_picker_selection), ..i0 },
                config: OmdockerConfig { image_columns: toggled_image_column(s0.config.image_columns, name@), ..s0.config },
                ..s0
            }
            &&& cmds == seq![Command::SaveConfig]
        } else {
            s1 == s0 && cmds.len() == 0
        },
        AppEvent::ImageRunSubmit => match s0.navigation.image_run {
            None => s1 == s0 && cmds.len() == 0,
            Some(run) => {
                let errs = run_errors(run.port_mapping@, run.volumes@);
                if errs.len() > 0 {
                    &&& s1 == with_run(s0, s1.navigation.image_run)
                    &&& s1.navigation.image_run matches Some(r1)
                        && r1 == (ImageRunState { validation_errors: r1.validation_errors, ..run })
                        && errors_view(r1.validation_errors@) == errs
                    &&& cmds.len() == 0
                } else {
                    &&& s1 == AppState {
                        navigation: NavigationState { mode_stack: s1.navigation.mode_stack, image_run: None, ..s0.navigation },
                        config: OmdockerConfig { images: s1.config.images, ..s0.config },
                        ..s0
                    }
                    &&& stack(s1) == popped(stack(s0)).0
                    &&& s1.config.images@ == s0.config.images@.insert(image_base(run.image_id@), saved_settings(run))
                    &&& cmds == seq![Command::CreateContainer(opts_of(run)), Command::SaveConfig]
                }
            },
        },
        _ => s1 == s0 && cmds.len() == 0,
    }
}

fn submit_run(state: &mut AppState) -> (r: Vec<Command>)
    ensures
        image_post(*old(state), AppEvent::ImageRunSubmit, 0, *final(state), r@),
{
    let mut commands: Vec<Command> = Vec::new();
    let errors = match &state.navigation.image_run {
        Some(run) => validate_run(&run.port_mapping, &run.volumes),
        None => Vec::new(),
    };
    if errors.len() > 0 {
        let mut run = state.navigation.image_run.take();
        if let Some(r) = &mut run {
            r.validation_errors = errors;
        }
        state.navigation.image_run = run;
    } else {
        let taken = state.navigation.image_run.take();
        match taken {
            Some(run) => {
                proof {
                    assert(errors_view(errors@).len() == 0);
                }
                let base = image_base_name(run.image_id.as_str());
                let settings = ContainerShellConfig {
                    shell: non_empty_exec(&run.shell),
                    user: non_empty_exec(&run.user),
                    workdir: non_empty_exec(&run.workdir),
                };
                state.config.images.insert(base, settings);
                commands.push(Command::CreateContainer(opts_exec(&run)));
                commands.push(Command::SaveConfig);
                state.navigation.mode_stack.back();
                proof {
                    assert(commands@ =~= seq![Command::CreateContainer(opts_of(run)), Command::SaveConfig]);
                }
            }
            None => {}
        }
    }
    commands
}

fn reduce_form(state: &mut AppState, event: &AppEvent, now: u64) -> (r: Vec<Command>)
    requires
        event is ImageRunFieldUpdate || event is ImageRunToggleAutoremove || event is ImageRunToggleAdvanced
            || event is ImageRunFocusNext || event is ImageRunFocusPrev,
    ensures
        image_post(*old(state), *event, now, *final(state), r@),
{
    let mut run = state.navigation.image_run.take();
    if let Some(r) = &mut run {
        match event {
            AppEvent::ImageRunFieldUpdate(field, value) => update_run_field(r, *field, value),
            AppEvent::ImageRunToggleAutoremove => r.autoremove = !r.autoremove,
            AppEvent::ImageRunToggleAdvanced => {
                r.show_advanced = !r.show_advanced;
                if !r.show_advanced && r.field_focus >= 9 {
                    r.field_focus = 0;
                }
            }
            AppEvent::ImageRunFocusNext => {
                let max: usize = if r.show_advanced { 15 } else { 9 };
                let ghost f = r.field_focus;
                r.field_focus = (r.field_focus % max + 1) % max;
                proof {
                    vstd::arithmetic::div_mod::lemma_add_mod_noop(f as int, 1, max as int);
                }
            }
            AppEvent::ImageRunFocusPrev => {
                let max: usize = if r.show_advanced { 15 } else { 9 };
                r.field_focus = if r.field_focus == 0 { max - 1 } else { r.field_focus - 1 };
            }
            _ => {}
        }
    }
    state.navigation.image_run = run;
    Vec::new()
}

fn reduce_list(state: &mut AppState, event: &AppEvent, now: u64) -> (r: Vec<Command>)
    requires
        event is ImagesUpdated || event is SelectImage || event is FilterImages || event is ActivateImageFilter
            || event is PrunedImages || event is RunImage || event is ToggleColumnPicker || event is ToggleColumn,
    ensures
        image_post(*old(state), *event, now, *final(state), r@),
{
    let mut commands: Vec<Command> = Vec::new();
    match event {
        AppEvent::ImagesUpdated(list) => {
            proof {
                reveal_strlit("");
                assert(""@ =~= Seq::<char>::empty());
            }
            state.images.update_items(list.clone(), "", now);
            refilter_images(&mut state.images);
        }
        AppEvent::SelectImage(idx) => {
            if *idx < state.images.filtered.len() {
                state.images.selected = *idx;
            }
        }
        AppEvent::FilterImages(q) => {
            state.images.filter = q.clone();
            if state.images.filter.as_str().is_empty() {
                state.images.filter_active = false;
            }
            refilter_images(&mut state.images);
        }
        AppEvent::ActivateImageFilter => {
            state.images.filter_active = true;
        }
        AppEvent::PrunedImages(count) => {
            let mut m = owned("Pruned ");
            push_decimal(&mut m, *count as u64);
            let m = concat(m.as_str(), " unused images");
            state.error = Some(m);
            state.error_timer = 10;
        }
        AppEvent::RunImage(repo, tag) => {
            let run = run_form(state, repo, tag);
            let top = Mode::ImageRun(run.image_id.clone());
            state.navigation.image_run = Some(run);
            state.navigation.mode_stack.push(top);
        }
        AppEvent::ToggleColumnPicker => {
            state.images.show_column_picker = !state.images.show_column_picker;
        }
        AppEvent::ToggleColumn(name) => {
            if state.images.show_column_picker {
                handle_column_nav(name.as_str(), 4, &mut state.images.column_picker_selection);
                toggle_image_column(&mut state.config.image_columns, name.as_str());
                commands.push(Command::SaveConfig);
            }
        }
        _ => {}
    }
    proof {
        if commands@.len() == 1 {
            assert(commands@ =~= seq![commands@[0]]);
        }
    }
    commands
}

/// The images reducer (see [`image_post`]).
pub fn reduce(state: &mut AppState, event: &AppEvent, now: u64) -> (r: Vec<Command>)
    ensures
        image_post(*old(state), *event, now, *final(state), r@),
{
    match event {
        AppEvent::ImagesUpdated(..) => reduce_list(state, event, now),
        AppEvent::SelectImage(..) => reduce_list(state, event, now),
        AppEvent::FilterImages(..) => reduce_list(state, event, now),
        AppEvent::ActivateImageFilter => reduce_list(state, event, now),
        AppEvent::PrunedImages(..) => reduce_list(state, event, now),
        AppEvent::RunImage(..) => reduce_list(state, event, now),
        AppEvent::ToggleColumnPicker => reduce_list(state, event, now),
        AppEvent::ToggleColumn(..) => reduce_list(state, event, now),
        AppEvent::ImageRunFieldUpdate(..) => reduce_form(state, event, now),
        AppEvent::ImageRunToggleAutoremove => reduce_form(state, event, now),
        AppEvent::ImageRunToggleAdvanced => reduce_form(state, event, now),
        AppEvent::ImageRunFocusNext => reduce_form(state, event, now),
        AppEvent::ImageRunFocusPrev => reduce_form(state, event, now),
        AppEvent::ImageRunSubmit => submit_run(state),
        _ => Vec::new(),
    }
}

} // verus!
