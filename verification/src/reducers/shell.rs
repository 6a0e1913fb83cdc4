//! Shell sessions and the shell settings form.

use vstd::prelude::*;
use crate::collections::with;
use crate::config::{ContainerShellConfig, OmdockerConfig};
use crate::event::{AppEvent, Command, ShellConfigField};
use crate::mode::{popped, pushed, Mode};
use crate::reducers::image::{non_empty, non_empty_exec};
use crate::reducers::navigation::{find_container, position_of_container, stack};
use crate::reducers::{image_base, image_base_name};
use crate::state::{AppState, ContainerStateExtra, NavigationState, ShellConfigState, ShellState};

verus! {

/// The shell settings a submitted form saves.
pub open spec fn submitted_settings(c: ShellConfigState) -> ContainerShellConfig {
    ContainerShellConfig { shell: Some(c.shell), user: non_empty(c.user), workdir: non_empty(c.workdir) }
}

/// The shell form after the user typed `value` into `field`.
pub open spec fn shell_field_updated(c: ShellConfigState, field: ShellConfigField, value: String) -> ShellConfigState {
    match field {
        ShellConfigField::Shell => ShellConfigState { shell: value, ..c },
        ShellConfigField::User => ShellConfigState { user: value, ..c },
        ShellConfigField::Workdir => ShellConfigState { workdir: value, ..c },
    }
}

/// The state with only the shell form replaced.
pub open spec fn with_form(s0: AppState, c: Option<ShellConfigState>) -> AppState {
    AppState { navigation: NavigationState { shell_config: c, ..s0.navigation }, ..s0 }
}

/// What the shell reducer does with each event it handles; other events
/// change nothing.
pub open spec fn shell_post(s0: AppState, event: AppEvent, s1: AppState, cmds: Seq<Command>) -> bool {
    let x0 = s0.container_extra;
    match event {
        AppEvent::CloseShell => {
            let stops = s0.navigation.shell matches Some(sh) && sh.stop_on_exit;
            &&& s1 == AppState {
                navigation: NavigationState { mode_stack: s1.navigation.mode_stack, shell: None, ..s0.navigation },
                container_extra: ContainerStateExtra { stopping_containers: s1.container_extra.stopping_containers, ..x0 },
                ..s0
            }
            &&& stack(s1) == popped(stack(s0)).0
            &&& if stops {
                let id = s0.navigation.shell->0.container_id;
                &&& s1.container_extra.stopping_containers@ == with(x0.stopping_containers@, id@)
                &&& cmds == seq![Command::StopContainer(id)]
            } else {
                &&& s1.container_extra.stopping_containers == x0.stopping_containers
                &&& cmds.len() == 0
            }
        },
        AppEvent::StartShell(id, shell, user, workdir) => {
            &&& s1 == AppState {
                navigation: NavigationState {
                    mode_stack: s1.navigation.mode_stack,
                    shell: Some(ShellState { container_id: id, active: true, stop_on_exit: true, shell, user, workdir }),
                    ..s0.navigation
                },
                ..s0
            }
            &&& stack(s1) == pushed(stack(s0), Mode::Shell(id))
            &&& cmds.len() == 0
        },
        AppEvent::ShellConfigSubmit => match s0.navigation.shell_config {
            None => s1 == s0 && cmds.len() == 0,
            Some(c) => {
                let items = s0.containers.items@;
                let k = find_container(items, c.container_id@, 0);
                let name = match k { Some(k) => items[k].name@, None => c.container_id@ };
                let saved = submitted_settings(c);
                &&& s1 == AppState {
                    navigation: NavigationState {
                        mode_stack: s1.navigation.mode_stack,
                        shell: Some(ShellState {
                            container_id: c.container_id,
                            active: true,
                            stop_on_exit: false,
                            shell: c.shell,
                            user: c.user,
                            workdir: c.workdir,
                        }),
                        shell_config: None,
                        ..s0.navigation
                    },
                    config: OmdockerConfig {
                        latest_shell: Some(c.shell),
                        containers: s1.config.containers,
                        images: s1.config.images,
                        ..s0.config
                    },
                    ..s0
                }
                &&& s1.config.containers@ == s0.config.containers@.insert(name, saved)
                &&& s1.config.images@ == (match k {
                    Some(k) => s0.config.images@.insert(image_base(items[k].image@), saved),
                    None => s0.config.images@,
                })
                &&& stack(s1) == pushed(popped(stack(s0)).0, Mode::Shell(c.container_id))
                &&& cmds == seq![Command::SaveConfig]
            },
        },
        AppEvent::ShellConfigFieldUpdate(field, value) => cmds.len() == 0 && match s0.navigation.shell_config {
            Some(c) => s1 == with_form(s0, Some(shell_field_updated(c, field, value))),
            None => s1 == s0,
        },
        AppEvent::ShellConfigFocusNext => cmds.len() == 0 && match s0.navigation.shell_config {
            Some(c) => s1 == with_form(s0, Some(ShellConfigState { field_focus: ((c.field_focus + 1) % 3) as usize, ..c })),
            None => s1 == s0,
        },
        AppEvent::ShellConfigFocusPrev => cmds.len() == 0 && match s0.navigation.shell_config {
            Some(c) => s1 == with_form(s0, Some(ShellConfigState { field_focus: ((c.field_focus + 2) % 3) as usize, ..c })),
            None => s1 == s0,
        },
        _ => s1 == s0 && cmds.len() == 0,
    }
}

fn close_shell(state: &mut AppState) -> (r: Vec<Command>)
    ensures
        shell_post(*old(state), AppEvent::CloseShell, *final(state), r@),
{
    let mut commands: Vec<Command> = Vec::new();
    let shell_data = state.navigation.shell.take();
    state.navigation.mode_stack.back();
    if let Some(s) = shell_data {
        if s.stop_on_exit {
            state.container_extra.stopping_containers.insert(s.container_id.clone());
            commands.push(Command::StopContainer(s.container_id));
            assert(commands@ =~= seq![Command::StopContainer(old(state).navigation.shell->0.container_id)]);
        }
    }
    commands
}

fn submit_form(state: &mut AppState) -> (r: Vec<Command>)
    ensures
        shell_post(*old(state), AppEvent::ShellConfigSubmit, *final(state), r@),
{
    let mut commands: Vec<Command> = Vec::new();
    let taken = state.navigation.shell_config.take();
    match taken {
        None => {}
        Some(config) => {
            let id = config.container_id.clone();
            let k = position_of_container(&state.containers.items, id.as_str());
            let name = match k {
                Some(k) => state.containers.items[k].name.clone(),
                None => id.clone(),
            };
            let settings = ContainerShellConfig {
                shell: Some(config.shell.clone()),
                user: non_empty_exec(&config.user),
                workdir: non_empty_exec(&config.workdir),
            };
            let image_settings = ContainerShellConfig {
                shell: Some(config.shell.clone()),
                user: non_empty_exec(&config.user),
                workdir: non_empty_exec(&config.workdir),
            };
            state.navigation.shell = Some(ShellState {
                container_id: id.clone(),
                active: true,
                stop_on_exit: false,
                shell: config.shell.clone(),
                user: config.user.clone(),
                workdir: config.workdir.clone(),
            });
            state.config.latest_shell = Some(config.shell.clone());
            state.config.containers.insert(name, settings);
            if let Some(k) = k {
                let base = image_base_name(state.containers.items[k].image.as_str());
                state.config.images.insert(base, image_settings);
            }
            commands.push(Command::SaveConfig);
            state.navigation.mode_stack.back();
            state.navigation.mode_stack.push(Mode::Shell(id));
            assert(commands@ =~= seq![Command::SaveConfig]);
        }
    }
    commands
}

/// The shell reducer (see [`shell_post`]).
pub fn reduce(state: &mut AppState, event: &AppEvent) -> (r: Vec<Command>)
    ensures
        shell_post(*old(state), *event, *final(state), r@),
{
    match event {
        AppEvent::CloseShell => return close_shell(state),
        AppEvent::ShellConfigSubmit => return submit_form(state),
        AppEvent::StartShell(id, shell, user, workdir) => {
            state.navigation.shell = Some(ShellState {
                container_id: id.clone(),
                active: true,
                stop_on_exit: true,
                shell: shell.clone(),
                user: user.clone(),
                workdir: workdir.clone(),
            });
            state.navigation.mode_stack.push(Mode::Shell(id.clone()));
            return Vec::new();
        }
        _ => {}
    }
    let mut form = state.navigation.shell_config.take();
    if let Some(c) = &mut form {
        match event {
            AppEvent::ShellConfigFieldUpdate(field, value) => match field {
                ShellConfigField::Shell => c.shell = value.clone(),
                ShellConfigField::User => c.user = value.clone(),
                ShellConfigField::Workdir => c.workdir = value.clone(),
            },
            AppEvent::ShellConfigFocusNext => {
                let ghost f = c.field_focus;
                c.field_focus = (c.field_focus % 3 + 1) % 3;
                proof {
                    vstd::arithmetic::div_mod::lemma_add_mod_noop(f as int, 1, 3);
                }
            }
            AppEvent::ShellConfigFocusPrev => {
                let ghost f = c.field_focus;
                c.field_focus = (c.field_focus % 3 + 2) % 3;
                proof {
                    vstd::arithmetic::div_mod::lemma_add_mod_noop(f as int, 2, 3);
                }
            }
            _ => {}
        }
    }
    state.navigation.shell_config = form;
    Vec::new()
}

} // verus!
