//! The text of the run form: each field with its label and value (or what
//! an empty value stands for), the errors found on submit, a hint for the
//! focused field and the key summary.

use vstd::prelude::*;
use crate::ansi::Color;
use crate::state::ImageRunState;
use crate::text::{concat, owned, push_decimal, decimal};
use crate::ui::{field_has_error, first_error};

verus! {

/// One line of the form: its text, colour (`None` keeps the default) and
/// whether it is bold.
#[derive(Debug)]
pub struct FormLine {
    pub text: String,
    pub color: Option<Color>,
    pub bold: bool,
}

/// A line as its text, colour and boldness.
pub open spec fn form_view(l: FormLine) -> (Seq<char>, Option<Color>, bool) {
    (l.text@, l.color, l.bold)
}

/// The labels of the fields, by focus index.
pub open spec fn field_label(i: usize) -> Seq<char> {
    if i == 0 { "Command"@ }
    else if i == 1 { "Shell"@ }
    else if i == 2 { "User"@ }
    else if i == 3 { "Workdir"@ }
    else if i == 4 { "Env Vars"@ }
    else if i == 5 { "Port Mapping"@ }
    else if i == 6 { "Volumes"@ }
    else if i == 7 { "Container Name"@ }
    else if i == 8 { "Auto Remove"@ }
    else if i == 9 { "Restart Policy"@ }
    else if i == 10 { "Memory Limit"@ }
    else if i == 11 { "CPU Limit"@ }
    else if i == 12 { "Network"@ }
    else if i == 13 { "Labels"@ }
    else { "Privileged"@ }
}

/// `v`, or `empty` when `v` is empty.
pub open spec fn or_else(v: Seq<char>, empty: Seq<char>) -> Seq<char> {
    if v.len() > 0 { v } else { empty }
}

/// "true" or "false".
pub open spec fn bool_text(b: bool) -> Seq<char> {
    if b { "true"@ } else { "false"@ }
}

/// What field `i` shows: its value, or what an empty value stands for.
pub open spec fn field_display(run: ImageRunState, i: usize) -> Seq<char> {
    if i == 0 { or_else(run.command@, "(use shell default)"@) }
    else if i == 1 { run.shell@ }
    else if i == 2 { or_else(run.user@, "(container default)"@) }
    else if i == 3 { or_else(run.workdir@, "(container default)"@) }
    else if i == 4 { or_else(run.env_vars@, "(none)"@) }
    else if i == 5 { or_else(run.port_mapping@, "(none)"@) }
    else if i == 6 { or_else(run.volumes@, "(none)"@) }
    else if i == 7 { or_else(run.container_name@, "(auto-generated)"@) }
    else if i == 8 { bool_text(run.autoremove) }
    else if i == 9 { or_else(run.restart_policy@, "(no)"@) }
    else if i == 10 { or_else(run.memory_limit@, "(none)"@) }
    else if i == 11 { or_else(run.cpu_limit@, "(none)"@) }
    else if i == 12 { or_else(run.network@, "(default)"@) }
    else if i == 13 { or_else(run.labels@, "(none)"@) }
    else { bool_text(run.privileged) }
}

/// The lines of field `i`: its label (marked and white when focused, grey
/// otherwise) and its value in bold cyan; the port and volume fields turn
/// red and show their first error below when submitting found one.
pub open spec fn field_lines(run: ImageRunState, i: usize) -> Seq<(Seq<char>, Option<Color>, bool)> {
    let focused = run.field_focus == i;
    let checked = i == 5 || i == 6;
    let err = first_error(run.validation_errors@, i, 0);
    seq![
        (" "@ + (if focused { "▸"@ } else { " "@ }) + " "@ + field_label(i), Some(if focused { Color::White } else { Color::DarkGray }), false),
        ("    "@ + field_display(run, i), Some(if checked && err is Some { Color::Red } else { Color::Cyan }), true),
    ] + (if checked && err is Some { seq![("    ▲ "@ + err->0, Some(Color::Red), false)] } else { Seq::empty() })
}

/// The lines of fields `from` to `to - 1`.
pub open spec fn fields_from(run: ImageRunState, from: usize, to: usize) -> Seq<(Seq<char>, Option<Color>, bool)>
    decreases to - from,
{
    if from >= to { Seq::empty() } else { field_lines(run, from) + fields_from(run, (from + 1) as usize, to) }
}

/// The hint for the focused field.
pub open spec fn field_help(i: usize) -> Seq<char> {
    if i == 0 { "Empty = use shell | space-separated args like 'sh -c while true; do sleep 3600; done'"@ }
    else if i == 1 { "Valid values: sh, bash, or a custom path like /bin/zsh"@ }
    else if i == 2 { "Empty = container default | host = current host user | root | user:group"@ }
    else if i == 3 { "Empty = container default | / = root | or a custom path like /app"@ }
    else if i == 4 { "One per line: KEY=value (e.g., 'NODE_ENV=production')"@ }
    else if i == 5 { "Host:Container or just Container (e.g., '8080:80' or '443')"@ }
    else if i == 6 { "Host:Container paths, one per line (e.g., '/data:/app/data')"@ }
    else if i == 7 { "Empty = auto-generated | or a custom name like 'my-container'"@ }
    else if i == 8 { "Press a to toggle | true = container removed after stop"@ }
    else if i == 9 { "Restart policy: no, always, on-failure, unless-stopped"@ }
    else if i == 10 { "Memory limit: 512m, 1g, 256m (empty = no limit)"@ }
    else if i == 11 { "CPU limit: 0.5, 1, 2 (empty = no limit)"@ }
    else if i == 12 { "Network name: host, bridge, or custom network (empty = default)"@ }
    else if i == 13 { "Labels: one per line KEY=value (e.g., 'app=myapp')"@ }
    else if i == 14 { "Press a to toggle | true = container runs in privileged mode"@ }
    else { Seq::empty() }
}

/// What Enter takes for the focused field when it is empty (and for the
/// two switches, their current value).
pub open spec fn default_label(run: ImageRunState) -> Option<Seq<char>> {
    let f = run.field_focus;
    if f == 0 && run.command@.len() == 0 { Some("use shell"@) }
    else if f == 1 && run.shell@.len() == 0 { Some("sh"@) }
    else if (f == 2 && run.user@.len() == 0) || (f == 3 && run.workdir@.len() == 0) { Some("(default)"@) }
    else if (f == 4 && run.env_vars@.len() == 0) || (f == 5 && run.port_mapping@.len() == 0) || (f == 6 && run.volumes@.len() == 0) { Some("(none)"@) }
    else if f == 7 && run.container_name@.len() == 0 { Some("(auto)"@) }
    else if f == 8 { Some(bool_text(run.autoremove)) }
    else if f == 9 && run.restart_policy@.len() == 0 { Some("no"@) }
    else if f == 10 && run.memory_limit@.len() == 0 { Some("(none)"@) }
    else if f == 11 && run.cpu_limit@.len() == 0 { Some("(none)"@) }
    else if f == 12 && run.network@.len() == 0 { Some("(default)"@) }
    else if f == 13 && run.labels@.len() == 0 { Some("(none)"@) }
    else if f == 14 { Some(bool_text(run.privileged)) }
    else { None }
}

/// The hint line.
pub open spec fn help_line(run: ImageRunState) -> Seq<char> {
    match default_label(run) {
        Some(d) => "  "@ + field_help(run.field_focus) + "  (type or press Enter for "@ + d + ")"@,
        None => "  "@ + field_help(run.field_focus),
    }
}

/// The key summary at the bottom of the form.
pub open spec fn form_footer() -> Seq<char> {
    " ↑↓ Tab:next field  Enter:run  Esc:cancel  Type:edit  Bksp:delete  a:toggle  ^A:advanced"@
}

/// The error count line: "  ⚠ N error(s) — fix before submitting".
pub open spec fn error_summary(n: nat) -> Seq<char> {
    "  ⚠ "@ + decimal(n) + " error"@ + (if n == 1 { Seq::empty() } else { "s"@ }) + " — fix before submitting"@
}

/// A blank line.
pub open spec fn blank() -> (Seq<char>, Option<Color>, bool) {
    (Seq::empty(), None, false)
}

/// The lines of the run form: the nine basic fields, the six advanced ones
/// when they are shown, a blank line, the hint in grey, the error count
/// when submitting found errors, and the key summary in grey.
pub open spec fn form_lines(run: ImageRunState) -> Seq<(Seq<char>, Option<Color>, bool)> {
    let n = run.validation_errors@.len();
    fields_from(run, 0, if run.show_advanced { 15 } else { 9 })
        + seq![blank(), (help_line(run), Some(Color::DarkGray), false)]
        + (if n > 0 { seq![blank(), (error_summary(n), Some(Color::Red), true)] } else { Seq::empty() })
        + seq![blank(), (form_footer(), Some(Color::DarkGray), false)]
}

type Lines = Vec<FormLine>;

fn push_form(out: &mut Lines, text: String, color: Option<Color>, bold: bool)
    ensures
        final(out)@.map_values(|l: FormLine| form_view(l)) == old(out)@.map_values(|l: FormLine| form_view(l)).push((text@, color, bold)),
{
    out.push(FormLine { text, color, bold });
    assert(final(out)@.map_values(|l: FormLine| form_view(l)) =~= old(out)@.map_values(|l: FormLine| form_view(l)).push((text@, color, bold)));
}

fn label_exec(i: usize) -> (r: &'static str)
    ensures
        r@ == field_label(i),
{
    if i == 0 { "Command" }
    else if i == 1 { "Shell" }
    else if i == 2 { "User" }
    else if i == 3 { "Workdir" }
    else if i == 4 { "Env Vars" }
    else if i == 5 { "Port Mapping" }
    else if i == 6 { "Volumes" }
    else if i == 7 { "Container Name" }
    else if i == 8 { "Auto Remove" }
    else if i == 9 { "Restart Policy" }
    else if i == 10 { "Memory Limit" }
    else if i == 11 { "CPU Limit" }
    else if i == 12 { "Network" }
    else if i == 13 { "Labels" }
    else { "Privileged" }
}

fn or_else_exec(v: &String, empty: &str) -> (r: String)
    ensures
        r@ == or_else(v@, empty@),
{
    if v.unicode_len() > 0 { v.clone() } else { owned(empty) }
}

fn bool_exec(b: bool) -> (r: String)
    ensures
        r@ == bool_text(b),
{
    if b { owned("true") } else { owned("false") }
}

fn display_exec(run: &ImageRunState, i: usize) -> (r: String)
    ensures
        r@ == field_display(*run, i),
{
    if i == 0 { or_else_exec(&run.command, "(use shell default)") }
    else if i == 1 { run.shell.clone() }
    else if i == 2 { or_else_exec(&run.user, "(container default)") }
    else if i == 3 { or_else_exec(&run.workdir, "(container default)") }
    else if i == 4 { or_else_exec(&run.env_vars, "(none)") }
    else if i == 5 { or_else_exec(&run.port_mapping, "(none)") }
    else if i == 6 { or_else_exec(&run.volumes, "(none)") }
    else if i == 7 { or_else_exec(&run.container_name, "(auto-generated)") }
    else if i == 8 { bool_exec(run.autoremove) }
    else if i == 9 { or_else_exec(&run.restart_policy, "(no)") }
    else if i == 10 { or_else_exec(&run.memory_limit, "(none)") }
    else if i == 11 { or_else_exec(&run.cpu_limit, "(none)") }
    else if i == 12 { or_else_exec(&run.network, "(default)") }
    else if i == 13 { or_else_exec(&run.labels, "(none)") }
    else { bool_exec(run.privileged) }
}

fn push_field(out: &mut Lines, run: &ImageRunState, i: usize)
    ensures
        final(out)@.map_values(|l: FormLine| form_view(l)) == old(out)@.map_values(|l: FormLine| form_view(l)) + field_lines(*run, i),
{
    let ghost start = old(out)@.map_values(|l: FormLine| form_view(l));
    let focused = run.field_focus == i;
    let checked = i == 5 || i == 6;
    let err = field_has_error(run, i);
    let a = concat(" ", if focused { "▸" } else { " " });
    let b = concat(a.as_str(), " ");
    let label = concat(b.as_str(), label_exec(i));
    push_form(out, label, Some(if focused { Color::White } else { Color::DarkGray }), false);
    let value = concat("    ", display_exec(run, i).as_str());
    let red = checked && err.is_some();
    push_form(out, value, Some(if red { Color::Red } else { Color::Cyan }), true);
    if red {
        match err {
            Some(m) => {
                push_form(out, concat("    ▲ ", m), Some(Color::Red), false);
            },
            None => {},
        }
    }
    assert(out@.map_values(|l: FormLine| form_view(l)) =~= start + field_lines(*run, i));
}

fn help_exec(i: usize) -> (r: &'static str)
    ensures
        r@ == field_help(i),
{
    proof {
        reveal_strlit("");
        assert(""@ =~= Seq::<char>::empty());
    }
    if i == 0 { "Empty = use shell | space-separated args like 'sh -c while true; do sleep 3600; done'" }
    else if i == 1 { "Valid values: sh, bash, or a custom path like /bin/zsh" }
    else if i == 2 { "Empty = container default | host = current host user | root | user:group" }
    else if i == 3 { "Empty = container default | / = root | or a custom path like /app" }
    else if i == 4 { "One per line: KEY=value (e.g., 'NODE_ENV=production')" }
    else if i == 5 { "Host:Container or just Container (e.g., '8080:80' or '443')" }
    else if i == 6 { "Host:Container paths, one per line (e.g., '/data:/app/data')" }
    else if i == 7 { "Empty = auto-generated | or a custom name like 'my-container'" }
    else if i == 8 { "Press a to toggle | true = container removed after stop" }
    else if i == 9 { "Restart policy: no, always, on-failure, unless-stopped" }
    else if i == 10 { "Memory limit: 512m, 1g, 256m (empty = no limit)" }
    else if i == 11 { "CPU limit: 0.5, 1, 2 (empty = no limit)" }
    else if i == 12 { "Network name: host, bridge, or custom network (empty = default)" }
    else if i == 13 { "Labels: one per line KEY=value (e.g., 'app=myapp')" }
    else if i == 14 { "Press a to toggle | true = container runs in privileged mode" }
    else { "" }
}

fn default_exec(run: &ImageRunState) -> (r: Option<String>)
    ensures
        (match r { Some(s) => Some(s@), None => None }) == default_label(*run),
{
    let f = run.field_focus;
    if f == 0 && run.command.unicode_len() == 0 { Some(owned("use shell")) }
    else if f == 1 && run.shell.unicode_len() == 0 { Some(owned("sh")) }
    else if (f == 2 && run.user.unicode_len() == 0) || (f == 3 && run.workdir.unicode_len() == 0) { Some(owned("(default)")) }
    else if (f == 4 && run.env_vars.unicode_len() == 0) || (f == 5 && run.port_mapping.unicode_len() == 0) || (f == 6 && run.volumes.unicode_len() == 0) { Some(owned("(none)")) }
    else if f == 7 && run.container_name.unicode_len() == 0 { Some(owned("(auto)")) }
    else if f == 8 { Some(bool_exec(run.autoremove)) }
    else if f == 9 && run.restart_policy.unicode_len() == 0 { Some(owned("no")) }
    else if f == 10 && run.memory_limit.unicode_len() == 0 { Some(owned("(none)")) }
    else if f == 11 && run.cpu_limit.unicode_len() == 0 { Some(owned("(none)")) }
    else if f == 12 && run.network.unicode_len() == 0 { Some(owned("(default)")) }
    else if f == 13 && run.labels.unicode_len() == 0 { Some(owned("(none)")) }
    else if f == 14 { Some(bool_exec(run.privileged)) }
    else { None }
}

fn help_line_exec(run: &ImageRunState) -> (r: String)
    ensures
        r@ == help_line(*run),
{
    let h = concat("  ", help_exec(run.field_focus));
    match default_exec(run) {
        Some(d) => {
            let a = concat(h.as_str(), "  (type or press Enter for ");
            let b = concat(a.as_str(), d.as_str());
            concat(b.as_str(), ")")
        },
        None => h,
    }
}

fn summary_exec(n: usize) -> (r: String)
    ensures
        r@ == error_summary(n as nat),
{
    let mut out = owned("  ⚠ ");
    push_decimal(&mut out, n as u64);
    let a = concat(out.as_str(), " error");
    let b = concat(a.as_str(), if n == 1 { "" } else { "s" });
    proof {
        reveal_strlit("");
        assert(""@ =~= Seq::<char>::empty());
    }
    concat(b.as_str(), " — fix before submitting")
}

/// The lines of the run form (see [`form_lines`]).
pub fn run_form_lines(run: &ImageRunState) -> (r: Vec<FormLine>)
    ensures
        r@.map_values(|l: FormLine| form_view(l)) == form_lines(*run),
{
    let mut out: Lines = Vec::new();
    let last: usize = if run.show_advanced { 15 } else { 9 };
    let mut i: usize = 0;
    assert(out@.map_values(|l: FormLine| form_view(l)) =~= Seq::<(Seq<char>, Option<Color>, bool)>::empty());
    while i < last
        invariant
            i <= last,
            last == (if run.show_advanced { 15usize } else { 9usize }),
            out@.map_values(|l: FormLine| form_view(l)) + fields_from(*run, i, last) == fields_from(*run, 0, last),
        decreases last - i,
    {
        let ghost before = out@.map_values(|l: FormLine| form_view(l));
        push_field(&mut out, run, i);
        assert(fields_from(*run, i, last) == field_lines(*run, i) + fields_from(*run, (i + 1) as usize, last));
        assert(before + fields_from(*run, i, last) =~= out@.map_values(|l: FormLine| form_view(l)) + fields_from(*run, (i + 1) as usize, last));
        i = i + 1;
    }
    assert(out@.map_values(|l: FormLine| form_view(l)) =~= fields_from(*run, 0, last));
    let ghost fields = out@.map_values(|l: FormLine| form_view(l));
    push_form(&mut out, String::new(), None, false);
    push_form(&mut out, help_line_exec(run), Some(Color::DarkGray), false);
    let ghost with_help = out@.map_values(|l: FormLine| form_view(l));
    let n = run.validation_errors.len();
    if n > 0 {
        push_form(&mut out, String::new(), None, false);
        push_form(&mut out, summary_exec(n), Some(Color::Red), true);
    }
    let ghost with_errors = out@.map_values(|l: FormLine| form_view(l));
    assert(with_errors =~= with_help + (if n > 0 { seq![blank(), (error_summary(n as nat), Some(Color::Red), true)] } else { Seq::empty() }));
    push_form(&mut out, String::new(), None, false);
    push_form(&mut out, owned(" ↑↓ Tab:next field  Enter:run  Esc:cancel  Type:edit  Bksp:delete  a:toggle  ^A:advanced"), Some(Color::DarkGray), false);
    assert(out@.map_values(|l: FormLine| form_view(l)) =~= form_lines(*run));
    out
}

} // verus!
