//! The text of the container details view: name, image, command, status
//! and creation time, then the compose project, the environment, the
//! volumes, the networks, the ports and the labels of the inspected
//! container.

use vstd::prelude::*;
use crate::ansi::Color;
use crate::state::{ContainerStateExtra, DetailsState};
use crate::text::{concat, owned};

verus! {

/// What the details view reads of an inspected container. Absent text
/// fields are empty; a list is `None` where the daemon's answer had no list
/// (or no object) there.
#[derive(Debug)]
pub struct ContainerInspect {
    /// "Name".
    pub name: String,
    /// "Config.Image".
    pub image: String,
    /// The text items of "Config.Cmd", when it is a list.
    pub cmd: Option<Vec<String>>,
    /// "State.Status".
    pub status: String,
    /// "Created".
    pub created: String,
    /// The items of "Config.Env", each as text when it is text.
    pub env: Option<Vec<Option<String>>>,
    /// "Mounts": source and destination of each.
    pub mounts: Option<Vec<(String, String)>>,
    /// "NetworkSettings.Networks": each network's name and IP address.
    pub networks: Option<Vec<(String, String)>>,
    /// "NetworkSettings.Ports": each container port and, when they are a
    /// list, its host bindings (host address, host port).
    pub ports: Option<Vec<(String, Option<Vec<(String, String)>>)>>,
    /// "Config.Labels": each key and its value (empty when not text).
    pub labels: Option<Vec<(String, String)>>,
}

/// One line of the view: an unstyled lead, then text in a colour (`None`
/// keeps the default colour).
#[derive(Debug)]
pub struct DetailLine {
    pub lead: String,
    pub text: String,
    pub color: Option<Color>,
}

/// A line as its lead, text and colour.
pub open spec fn line_view(l: DetailLine) -> (Seq<char>, Seq<char>, Option<Color>) {
    (l.lead@, l.text@, l.color)
}

/// A line of plain text.
pub open spec fn plain(t: Seq<char>) -> (Seq<char>, Seq<char>, Option<Color>) {
    (Seq::empty(), t, None)
}

/// A section heading.
pub open spec fn heading(t: Seq<char>) -> (Seq<char>, Seq<char>, Option<Color>) {
    (Seq::empty(), t, Some(Color::Cyan))
}

/// `s` without its leading '/' characters.
pub open spec fn trim_leading_slashes(s: Seq<char>) -> Seq<char>
    decreases s.len(),
{
    if s.len() > 0 && s[0] == '/' { trim_leading_slashes(s.drop_first()) } else { s }
}

/// The words joined with single spaces.
pub open spec fn joined(words: Seq<String>) -> Seq<char>
    decreases words.len(),
{
    if words.len() == 0 {
        Seq::empty()
    } else if words.len() == 1 {
        words[0]@
    } else {
        joined(words.drop_last()) + " "@ + words.last()@
    }
}

/// "Label:" then the value, for a value that is not empty.
pub open spec fn field_line(label: Seq<char>, value: Seq<char>) -> Seq<(Seq<char>, Seq<char>, Option<Color>)> {
    if value.len() > 0 { seq![plain(" "@ + label + ":        "@ + value)] } else { Seq::empty() }
}

/// The status shown: "stopping..." or "deleting..." while that is under
/// way, else the daemon's status ("unknown" when it gave none).
pub open spec fn status_text(status: Seq<char>, stopping: bool, deleting: bool) -> Seq<char> {
    if stopping { "stopping..."@ } else if deleting { "deleting..."@ } else if status.len() == 0 { "unknown"@ } else { status }
}

/// The colour of a status: green when running, red when exited or dead,
/// yellow otherwise.
pub open spec fn status_color(s: Seq<char>) -> Color {
    if s == "running"@ { Color::Green } else if s == "exited"@ || s == "dead"@ { Color::Red } else { Color::Yellow }
}

/// The value of label `key`, or empty.
pub open spec fn label_value(labels: Seq<(String, String)>, key: Seq<char>) -> Seq<char>
    decreases labels.len(),
{
    if labels.len() == 0 {
        Seq::empty()
    } else if labels[0].0@ == key {
        labels[0].1@
    } else {
        label_value(labels.drop_first(), key)
    }
}

/// The compose section: project, service and configuration files, when the
/// labels name a project or a service.
pub open spec fn compose_lines(labels: Option<Vec<(String, String)>>) -> Seq<(Seq<char>, Seq<char>, Option<Color>)> {
    match labels {
        Some(l) => {
            let project = label_value(l@, "com.docker.compose.project"@);
            let service = label_value(l@, "com.docker.compose.service"@);
            let files = label_value(l@, "com.docker.compose.config-files"@);
            if project.len() > 0 || service.len() > 0 {
                seq![heading(" COMPOSE"@)]
                    + (if project.len() > 0 { seq![plain("  Project:     "@ + project)] } else { Seq::empty() })
                    + (if service.len() > 0 { seq![plain("  Service:     "@ + service)] } else { Seq::empty() })
                    + (if files.len() > 0 { seq![plain("  Config:      "@ + files)] } else { Seq::empty() })
                    + seq![plain(Seq::empty())]
            } else {
                Seq::empty()
            }
        },
        None => Seq::empty(),
    }
}

/// The environment variables that are text, one line each.
pub open spec fn env_items(items: Seq<Option<String>>) -> Seq<(Seq<char>, Seq<char>, Option<Color>)>
    decreases items.len(),
{
    if items.len() == 0 {
        Seq::empty()
    } else {
        env_items(items.drop_last()) + match items.last() {
            Some(v) => seq![plain("  "@ + v@)],
            None => Seq::empty(),
        }
    }
}

/// Pairs shown one per line as "  a{sep}b{end}".
pub open spec fn pair_items(items: Seq<(String, String)>, sep: Seq<char>, end: Seq<char>) -> Seq<(Seq<char>, Seq<char>, Option<Color>)>
    decreases items.len(),
{
    if items.len() == 0 {
        Seq::empty()
    } else {
        pair_items(items.drop_last(), sep, end).push(plain("  "@ + items.last().0@ + sep + items.last().1@ + end))
    }
}

/// The bindings of one container port, one line each.
pub open spec fn binding_items(port: Seq<char>, bindings: Seq<(String, String)>) -> Seq<(Seq<char>, Seq<char>, Option<Color>)>
    decreases bindings.len(),
{
    if bindings.len() == 0 {
        Seq::empty()
    } else {
        binding_items(port, bindings.drop_last())
            .push(plain("  "@ + bindings.last().0@ + ":"@ + bindings.last().1@ + " → "@ + port))
    }
}

/// The bindings of all the ports.
pub open spec fn port_items(ports: Seq<(String, Option<Vec<(String, String)>>)>) -> Seq<(Seq<char>, Seq<char>, Option<Color>)>
    decreases ports.len(),
{
    if ports.len() == 0 {
        Seq::empty()
    } else {
        port_items(ports.drop_last()) + match ports.last().1 {
            Some(b) => binding_items(ports.last().0@, b@),
            None => Seq::empty(),
        }
    }
}

/// A section: its heading, its lines and a blank line, when the list it
/// shows is present and not empty.
pub open spec fn section(title: Seq<char>, count: Option<nat>, body: Seq<(Seq<char>, Seq<char>, Option<Color>)>) -> Seq<(Seq<char>, Seq<char>, Option<Color>)> {
    match count {
        Some(n) => if n > 0 { seq![heading(title)] + body + seq![plain(Seq::empty())] } else { Seq::empty() },
        None => Seq::empty(),
    }
}

/// The lines before the sections: name, image, command, status, creation
/// time and a blank line.
pub open spec fn header_lines(c: ContainerInspect, stopping: bool, deleting: bool) -> Seq<(Seq<char>, Seq<char>, Option<Color>)> {
    let status = status_text(c.status@, stopping, deleting);
    (if c.name@.len() > 0 { seq![plain(" Name:         "@ + trim_leading_slashes(c.name@))] } else { Seq::empty() })
        + field_line("Image"@, c.image@)
        + field_line("Command"@, match c.cmd { Some(w) => joined(w@), None => Seq::empty() })
        + seq![(" Status:       "@, status, Some(status_color(status)))]
        + field_line("Created"@, c.created@)
        + seq![plain(Seq::empty())]
}

/// The environment section.
pub open spec fn env_section(c: ContainerInspect) -> Seq<(Seq<char>, Seq<char>, Option<Color>)> {
    match c.env { Some(e) => section(" ENVIRONMENT"@, Some(e@.len()), env_items(e@)), None => Seq::empty() }
}

/// The volumes section: each mount's source and destination.
pub open spec fn volumes_section(c: ContainerInspect) -> Seq<(Seq<char>, Seq<char>, Option<Color>)> {
    match c.mounts { Some(m) => section(" VOLUMES"@, Some(m@.len()), pair_items(m@, " → "@, Seq::empty())), None => Seq::empty() }
}

/// The networks section: each network and the container's address in it.
pub open spec fn networks_section(c: ContainerInspect) -> Seq<(Seq<char>, Seq<char>, Option<Color>)> {
    match c.networks { Some(n) => section(" NETWORKS"@, Some(n@.len()), pair_items(n@, " ("@, ")"@)), None => Seq::empty() }
}

/// The ports section: each host binding of each container port.
pub open spec fn ports_section(c: ContainerInspect) -> Seq<(Seq<char>, Seq<char>, Option<Color>)> {
    match c.ports { Some(p) => section(" PORTS"@, Some(p@.len()), port_items(p@)), None => Seq::empty() }
}

/// The labels section: each label as "key=value".
pub open spec fn labels_section(c: ContainerInspect) -> Seq<(Seq<char>, Seq<char>, Option<Color>)> {
    match c.labels { Some(l) => section(" LABELS"@, Some(l@.len()), pair_items(l@, "="@, Seq::empty())), None => Seq::empty() }
}

/// The lines of the details view for an inspected container.
pub open spec fn inspect_lines(c: ContainerInspect, stopping: bool, deleting: bool) -> Seq<(Seq<char>, Seq<char>, Option<Color>)> {
    header_lines(c, stopping, deleting) + compose_lines(c.labels) + env_section(c) + volumes_section(c)
        + networks_section(c) + ports_section(c) + labels_section(c)
}

/// The lines of the details view: a loading note before the inspection
/// arrives, an error when what arrived could not be read (`parsed` is what
/// the program made of `details.json`), else [`inspect_lines`], showing the
/// container as stopping or deleting while that is under way.
pub open spec fn details_lines(details: DetailsState, extra: ContainerStateExtra, parsed: Option<ContainerInspect>) -> Seq<(Seq<char>, Seq<char>, Option<Color>)> {
    if details.json is None {
        seq![(Seq::empty(), "  Loading container details..."@, Some(Color::Yellow))]
    } else {
        match parsed {
            Some(c) => inspect_lines(c, extra.stopping_containers@.contains(details.id@), extra.deleting_containers@.contains(details.id@)),
            None => seq![(Seq::empty(), "  Failed to parse container JSON"@, Some(Color::Red))],
        }
    }
}

type Lines = Vec<DetailLine>;

fn push_line(out: &mut Lines, lead: String, text: String, color: Option<Color>)
    ensures
        final(out)@.map_values(|l: DetailLine| line_view(l)) == old(out)@.map_values(|l: DetailLine| line_view(l)).push((lead@, text@, color)),
{
    out.push(DetailLine { lead, text, color });
    assert(final(out)@.map_values(|l: DetailLine| line_view(l)) =~= old(out)@.map_values(|l: DetailLine| line_view(l)).push((lead@, text@, color)));
}

fn push_plain(out: &mut Lines, text: String)
    ensures
        final(out)@.map_values(|l: DetailLine| line_view(l)) == old(out)@.map_values(|l: DetailLine| line_view(l)).push(plain(text@)),
{
    push_line(out, String::new(), text, None);
}

/// `s` without its leading '/' characters (see [`trim_leading_slashes`]).
pub fn trim_slashes(s: &str) -> (r: String)
    ensures
        r@ == trim_leading_slashes(s@),
{
    let cs = crate::text::chars_of(s);
    let mut i: usize = 0;
    assert(cs@.skip(0) =~= cs@);
    while i < cs.len() && cs[i] == '/'
        invariant
            i <= cs@.len(),
            cs@ == s@,
            trim_leading_slashes(cs@.skip(i as int)) == trim_leading_slashes(s@),
        decreases cs@.len() - i,
    {
        assert(cs@.skip(i as int).drop_first() =~= cs@.skip(i + 1));
        i = i + 1;
    }
    let rest = crate::text::slice_chars(&cs, i, cs.len());
    assert(rest@ =~= cs@.skip(i as int));
    crate::text::string_of(rest.as_slice())
}

fn joined_exec(words: &Vec<String>) -> (r: String)
    ensures
        r@ == joined(words@),
{
    let mut out = String::new();
    let mut i: usize = 0;
    while i < words.len()
        invariant
            i <= words@.len(),
            out@ == joined(words@.subrange(0, i as int)),
        decreases words@.len() - i,
    {
        let ghost sub = words@.subrange(0, i + 1);
        assert(sub.drop_last() =~= words@.subrange(0, i as int));
        if i > 0 {
            out.append(" ");
        }
        out.append(words[i].as_str());
        i = i + 1;
        assert(out@ =~= joined(sub));
    }
    assert(words@.subrange(0, i as int) =~= words@);
    out
}

fn push_field(out: &mut Lines, label: &str, value: &str)
    ensures
        final(out)@.map_values(|l: DetailLine| line_view(l)) == old(out)@.map_values(|l: DetailLine| line_view(l)) + field_line(label@, value@),
{
    if value.unicode_len() > 0 {
        let a = concat(" ", label);
        let b = concat(a.as_str(), ":        ");
        let t = concat(b.as_str(), value);
        push_plain(out, t);
        assert(field_line(label@, value@) =~= seq![plain(" "@ + label@ + ":        "@ + value@)]);
    } else {
        assert(old(out)@.map_values(|l: DetailLine| line_view(l)) + field_line(label@, value@) =~= old(out)@.map_values(|l: DetailLine| line_view(l)));
    }
}

fn label_value_exec(labels: &Vec<(String, String)>, key: &str) -> (r: String)
    ensures
        r@ == label_value(labels@, key@),
{
    let mut i: usize = 0;
    assert(labels@.skip(0) =~= labels@);
    while i < labels.len()
        invariant
            i <= labels@.len(),
            label_value(labels@.skip(i as int), key@) == label_value(labels@, key@),
        decreases labels@.len() - i,
    {
        assert(labels@.skip(i as int)[0] == labels@[i as int]);
        if crate::text::str_eq(labels[i].0.as_str(), key) {
            return labels[i].1.clone();
        }
        assert(labels@.skip(i as int).drop_first() =~= labels@.skip(i + 1));
        i = i + 1;
    }
    String::new()
}

fn push_compose(out: &mut Lines, labels: &Option<Vec<(String, String)>>)
    ensures
        final(out)@.map_values(|l: DetailLine| line_view(l)) == old(out)@.map_values(|l: DetailLine| line_view(l)) + compose_lines(*labels),
{
    let ghost start = old(out)@.map_values(|l: DetailLine| line_view(l));
    match labels {
        Some(l) => {
            let project = label_value_exec(l, "com.docker.compose.project");
            let service = label_value_exec(l, "com.docker.compose.service");
            let files = label_value_exec(l, "com.docker.compose.config-files");
            if project.unicode_len() > 0 || service.unicode_len() > 0 {
                push_line(out, String::new(), owned(" COMPOSE"), Some(Color::Cyan));
                let ghost a = seq![heading(" COMPOSE"@)];
                let ghost b = if project@.len() > 0 { seq![plain("  Project:     "@ + project@)] } else { Seq::empty() };
                let ghost c = if service@.len() > 0 { seq![plain("  Service:     "@ + service@)] } else { Seq::empty() };
                let ghost d = if files@.len() > 0 { seq![plain("  Config:      "@ + files@)] } else { Seq::empty() };
                assert(out@.map_values(|l: DetailLine| line_view(l)) =~= start + a);
                if project.unicode_len() > 0 {
                    push_plain(out, concat("  Project:     ", project.as_str()));
                }
                assert(out@.map_values(|l: DetailLine| line_view(l)) =~= start + a + b);
                if service.unicode_len() > 0 {
                    push_plain(out, concat("  Service:     ", service.as_str()));
                }
                assert(out@.map_values(|l: DetailLine| line_view(l)) =~= start + a + b + c);
                if files.unicode_len() > 0 {
                    push_plain(out, concat("  Config:      ", files.as_str()));
                }
                assert(out@.map_values(|l: DetailLine| line_view(l)) =~= start + a + b + c + d);
                push_plain(out, String::new());
                assert(out@.map_values(|l: DetailLine| line_view(l)) =~= start + (a + b + c + d + seq![plain(Seq::empty())]));
            } else {
                assert(start + compose_lines(*labels) =~= start);
            }
        },
        None => {
            assert(start + compose_lines(*labels) =~= start);
        },
    }
}

fn push_env_items(out: &mut Lines, items: &Vec<Option<String>>)
    ensures
        final(out)@.map_values(|l: DetailLine| line_view(l)) == old(out)@.map_values(|l: DetailLine| line_view(l)) + env_items(items@),
{
    let ghost start = old(out)@.map_values(|l: DetailLine| line_view(l));
    let mut i: usize = 0;
    assert(start + env_items(items@.subrange(0, 0)) =~= start);
    while i < items.len()
        invariant
            i <= items@.len(),
            out@.map_values(|l: DetailLine| line_view(l)) == start + env_items(items@.subrange(0, i as int)),
        decreases items@.len() - i,
    {
        let ghost sub = items@.subrange(0, i + 1);
        assert(sub.drop_last() =~= items@.subrange(0, i as int));
        let ghost before = out@.map_values(|l: DetailLine| line_view(l));
        match &items[i] {
            Some(v) => {
                push_plain(out, concat("  ", v.as_str()));
                assert(out@.map_values(|l: DetailLine| line_view(l)) =~= start + env_items(sub));
            },
            None => {
                assert(before =~= start + env_items(sub));
            },
        }
        i = i + 1;
    }
    assert(items@.subrange(0, i as int) =~= items@);
}

fn push_pair_items(out: &mut Lines, items: &Vec<(String, String)>, sep: &str, end: &str)
    ensures
        final(out)@.map_values(|l: DetailLine| line_view(l)) == old(out)@.map_values(|l: DetailLine| line_view(l)) + pair_items(items@, sep@, end@),
{
    let ghost start = old(out)@.map_values(|l: DetailLine| line_view(l));
    let mut i: usize = 0;
    assert(start + pair_items(items@.subrange(0, 0), sep@, end@) =~= start);
    while i < items.len()
        invariant
            i <= items@.len(),
            out@.map_values(|l: DetailLine| line_view(l)) == start + pair_items(items@.subrange(0, i as int), sep@, end@),
        decreases items@.len() - i,
    {
        let ghost sub = items@.subrange(0, i + 1);
        assert(sub.drop_last() =~= items@.subrange(0, i as int));
        let a = concat("  ", items[i].0.as_str());
        let b = concat(a.as_str(), sep);
        let c = concat(b.as_str(), items[i].1.as_str());
        let d = concat(c.as_str(), end);
        push_plain(out, d);
        assert(out@.map_values(|l: DetailLine| line_view(l)) =~= start + pair_items(sub, sep@, end@));
        i = i + 1;
    }
    assert(items@.subrange(0, i as int) =~= items@);
}

fn push_binding_items(out: &mut Lines, port: &str, bindings: &Vec<(String, String)>)
    ensures
        final(out)@.map_values(|l: DetailLine| line_view(l)) == old(out)@.map_values(|l: DetailLine| line_view(l)) + binding_items(port@, bindings@),
{
    let ghost start = old(out)@.map_values(|l: DetailLine| line_view(l));
    let mut i: usize = 0;
    assert(start + binding_items(port@, bindings@.subrange(0, 0)) =~= start);
    while i < bindings.len()
        invariant
            i <= bindings@.len(),
            out@.map_values(|l: DetailLine| line_view(l)) == start + binding_items(port@, bindings@.subrange(0, i as int)),
        decreases bindings@.len() - i,
    {
        let ghost sub = bindings@.subrange(0, i + 1);
        assert(sub.drop_last() =~= bindings@.subrange(0, i as int));
        let a = concat("  ", bindings[i].0.as_str());
        let b = concat(a.as_str(), ":");
        let c = concat(b.as_str(), bindings[i].1.as_str());
        let d = concat(c.as_str(), " → ");
        let e = concat(d.as_str(), port);
        push_plain(out, e);
        assert(out@.map_values(|l: DetailLine| line_view(l)) =~= start + binding_items(port@, sub));
        i = i + 1;
    }
    assert(bindings@.subrange(0, i as int) =~= bindings@);
}

fn push_port_items(out: &mut Lines, ports: &Vec<(String, Option<Vec<(String, String)>>)>)
    ensures
        final(out)@.map_values(|l: DetailLine| line_view(l)) == old(out)@.map_values(|l: DetailLine| line_view(l)) + port_items(ports@),
{
    let ghost start = old(out)@.map_values(|l: DetailLine| line_view(l));
    let mut i: usize = 0;
    assert(start + port_items(ports@.subrange(0, 0)) =~= start);
    while i < ports.len()
        invariant
            i <= ports@.len(),
            out@.map_values(|l: DetailLine| line_view(l)) == start + port_items(ports@.subrange(0, i as int)),
        decreases ports@.len() - i,
    {
        let ghost sub = ports@.subrange(0, i + 1);
        assert(sub.drop_last() =~= ports@.subrange(0, i as int));
        let ghost before = out@.map_values(|l: DetailLine| line_view(l));
        match &ports[i].1 {
            Some(b) => {
                push_binding_items(out, ports[i].0.as_str(), b);
                assert(out@.map_values(|l: DetailLine| line_view(l)) =~= start + port_items(sub));
            },
            None => {
                assert(before =~= start + port_items(sub));
            },
        }
        i = i + 1;
    }
    assert(ports@.subrange(0, i as int) =~= ports@);
}

fn open_section(out: &mut Lines, title: &str)
    ensures
        final(out)@.map_values(|l: DetailLine| line_view(l)) == old(out)@.map_values(|l: DetailLine| line_view(l)).push(heading(title@)),
{
    push_line(out, String::new(), owned(title), Some(Color::Cyan));
}

fn push_status(out: &mut Lines, raw: &str, stopping: bool, deleting: bool)
    ensures
        final(out)@.map_values(|l: DetailLine| line_view(l)) == old(out)@.map_values(|l: DetailLine| line_view(l))
            .push((" Status:       "@, status_text(raw@, stopping, deleting), Some(status_color(status_text(raw@, stopping, deleting))))),
{
    let status: String = if stopping {
        owned("stopping...")
    } else if deleting {
        owned("deleting...")
    } else if raw.unicode_len() == 0 {
        owned("unknown")
    } else {
        owned(raw)
    };
    let color = if crate::text::str_eq(status.as_str(), "running") {
        Color::Green
    } else if crate::text::str_eq(status.as_str(), "exited") || crate::text::str_eq(status.as_str(), "dead") {
        Color::Red
    } else {
        Color::Yellow
    };
    push_line(out, owned(" Status:       "), status, Some(color));
}

#[verifier::rlimit(30)]
fn push_header(out: &mut Lines, c: &ContainerInspect, stopping: bool, deleting: bool)
    ensures
        final(out)@.map_values(|l: DetailLine| line_view(l)) == old(out)@.map_values(|l: DetailLine| line_view(l)) + header_lines(*c, stopping, deleting),
{
    let ghost start = old(out)@.map_values(|l: DetailLine| line_view(l));
    let ghost name_part = if c.name@.len() > 0 { seq![plain(" Name:         "@ + trim_leading_slashes(c.name@))] } else { Seq::<(Seq<char>, Seq<char>, Option<Color>)>::empty() };
    if c.name.unicode_len() > 0 {
        let n = trim_slashes(c.name.as_str());
        push_plain(out, concat(" Name:         ", n.as_str()));
    }
    assert(out@.map_values(|l: DetailLine| line_view(l)) =~= start + name_part);
    push_field(out, "Image", c.image.as_str());
    let cmd = match &c.cmd {
        Some(w) => joined_exec(w),
        None => String::new(),
    };
    push_field(out, "Command", cmd.as_str());
    push_status(out, c.status.as_str(), stopping, deleting);
    push_field(out, "Created", c.created.as_str());
    push_plain(out, String::new());
    assert(out@.map_values(|l: DetailLine| line_view(l)) =~= start + header_lines(*c, stopping, deleting));
}

fn push_env_section(out: &mut Lines, c: &ContainerInspect)
    ensures
        final(out)@.map_values(|l: DetailLine| line_view(l)) == old(out)@.map_values(|l: DetailLine| line_view(l)) + env_section(*c),
{
    let ghost start = old(out)@.map_values(|l: DetailLine| line_view(l));
    match &c.env {
        Some(e) => {
            if e.len() > 0 {
                open_section(out, " ENVIRONMENT");
                push_env_items(out, e);
                push_plain(out, String::new());
            }
        },
        None => {},
    }
    assert(out@.map_values(|l: DetailLine| line_view(l)) =~= start + env_section(*c));
}

fn push_volumes_section(out: &mut Lines, c: &ContainerInspect)
    ensures
        final(out)@.map_values(|l: DetailLine| line_view(l)) == old(out)@.map_values(|l: DetailLine| line_view(l)) + volumes_section(*c),
{
    let ghost start = old(out)@.map_values(|l: DetailLine| line_view(l));
    proof {
        reveal_strlit("");
        assert(""@ =~= Seq::<char>::empty());
    }
    match &c.mounts {
        Some(m) => {
            if m.len() > 0 {
                open_section(out, " VOLUMES");
                push_pair_items(out, m, " → ", "");
                push_plain(out, String::new());
            }
        },
        None => {},
    }
    assert(out@.map_values(|l: DetailLine| line_view(l)) =~= start + volumes_section(*c));
}

fn push_networks_section(out: &mut Lines, c: &ContainerInspect)
    ensures
        final(out)@.map_values(|l: DetailLine| line_view(l)) == old(out)@.map_values(|l: DetailLine| line_view(l)) + networks_section(*c),
{
    let ghost start = old(out)@.map_values(|l: DetailLine| line_view(l));
    match &c.networks {
        Some(n) => {
            if n.len() > 0 {
                open_section(out, " NETWORKS");
                push_pair_items(out, n, " (", ")");
                push_plain(out, String::new());
            }
        },
        None => {},
    }
    assert(out@.map_values(|l: DetailLine| line_view(l)) =~= start + networks_section(*c));
}

fn push_ports_section(out: &mut Lines, c: &ContainerInspect)
    ensures
        final(out)@.map_values(|l: DetailLine| line_view(l)) == old(out)@.map_values(|l: DetailLine| line_view(l)) + ports_section(*c),
{
    let ghost start = old(out)@.map_values(|l: DetailLine| line_view(l));
    match &c.ports {
        Some(p) => {
            if p.len() > 0 {
                open_section(out, " PORTS");
                push_port_items(out, p);
                push_plain(out, String::new());
            }
        },
        None => {},
    }
    assert(out@.map_values(|l: DetailLine| line_view(l)) =~= start + ports_section(*c));
}

fn push_labels_section(out: &mut Lines, c: &ContainerInspect)
    ensures
        final(out)@.map_values(|l: DetailLine| line_view(l)) == old(out)@.map_values(|l: DetailLine| line_view(l)) + labels_section(*c),
{
    let ghost start = old(out)@.map_values(|l: DetailLine| line_view(l));
    proof {
        reveal_strlit("");
        assert(""@ =~= Seq::<char>::empty());
    }
    match &c.labels {
        Some(l) => {
            if l.len() > 0 {
                open_section(out, " LABELS");
                push_pair_items(out, l, "=", "");
                push_plain(out, String::new());
            }
        },
        None => {},
    }
    assert(out@.map_values(|l: DetailLine| line_view(l)) =~= start + labels_section(*c));
}

/// The lines of the details view (see [`details_lines`]).
pub fn build_text(details: &DetailsState, extra: &ContainerStateExtra, parsed: &Option<ContainerInspect>) -> (r: Vec<DetailLine>)
    ensures
        r@.map_values(|l: DetailLine| line_view(l)) == details_lines(*details, *extra, *parsed),
{
    let mut out: Lines = Vec::new();
    assert(out@.map_values(|l: DetailLine| line_view(l)) =~= Seq::<(Seq<char>, Seq<char>, Option<Color>)>::empty());
    if details.json.is_none() {
        push_line(&mut out, String::new(), owned("  Loading container details..."), Some(Color::Yellow));
        assert(out@.map_values(|l: DetailLine| line_view(l)) =~= details_lines(*details, *extra, *parsed));
        return out;
    }
    let c = match parsed {
        Some(c) => c,
        None => {
            push_line(&mut out, String::new(), owned("  Failed to parse container JSON"), Some(Color::Red));
            assert(out@.map_values(|l: DetailLine| line_view(l)) =~= details_lines(*details, *extra, *parsed));
            return out;
        },
    };
    let stopping = extra.stopping_containers.contains(details.id.as_str());
    let deleting = extra.deleting_containers.contains(details.id.as_str());
    push_header(&mut out, c, stopping, deleting);
    push_compose(&mut out, &c.labels);
    push_env_section(&mut out, c);
    push_volumes_section(&mut out, c);
    push_networks_section(&mut out, c);
    push_ports_section(&mut out, c);
    push_labels_section(&mut out, c);
    assert(out@.map_values(|l: DetailLine| line_view(l)) =~= inspect_lines(*c, stopping, deleting));
    out
}

} // verus!
