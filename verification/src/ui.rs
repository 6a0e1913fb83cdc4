//! What the screens show that is decided rather than drawn: the spinner
//! frame, the statistics title's sort note, the key hints of each view, and
//! the error shown beside a field of the run form.

use vstd::prelude::*;
use crate::ansi::Color;
use crate::mode::Mode;
use crate::state::{ImageRunState, StatSort};
use crate::text::{concat, owned};

verus! {

/// The frames of the loading spinner.
pub open spec fn spinner_frame(i: int) -> char {
    if i == 0 { '⠋' }
    else if i == 1 { '⠙' }
    else if i == 2 { '⠹' }
    else if i == 3 { '⠸' }
    else if i == 4 { '⠼' }
    else if i == 5 { '⠴' }
    else if i == 6 { '⠦' }
    else if i == 7 { '⠧' }
    else { '⠏' }
}

/// The number of spinner frames.
pub const SPINNER_FRAMES: usize = 9;

/// The spinner frame shown at tick `tick_count`: each frame lasts two ticks.
pub fn spinner_char(tick_count: u64) -> (r: char)
    ensures
        r == spinner_frame((((tick_count as usize) / 2) % SPINNER_FRAMES) as int),
{
    let i = ((tick_count as usize) / 2) % SPINNER_FRAMES;
    if i == 0 { '⠋' }
    else if i == 1 { '⠙' }
    else if i == 2 { '⠹' }
    else if i == 3 { '⠸' }
    else if i == 4 { '⠼' }
    else if i == 5 { '⠴' }
    else if i == 6 { '⠦' }
    else if i == 7 { '⠧' }
    else { '⠏' }
}

/// The name of a sort column as the statistics title shows it.
pub open spec fn sort_field_name(s: StatSort) -> Seq<char> {
    match s {
        StatSort::Name => "Name"@,
        StatSort::Cpu => "CPU %"@,
        StatSort::Memory => "Memory"@,
        StatSort::NetRx => "Net Rx"@,
        StatSort::NetTx => "Net Tx"@,
        StatSort::BlockRead => "Block Read"@,
        StatSort::BlockWrite => "Block Write"@,
        StatSort::Pids => "PIDs"@,
    }
}

/// The note on the statistics title: the column and a triangle pointing up
/// for ascending, down for descending.
pub open spec fn sort_note(s: StatSort, ascending: bool) -> Seq<char> {
    " (sorted by "@ + sort_field_name(s) + (if ascending { " \u{25b4}"@ } else { " \u{25be}"@ }) + ")"@
}

fn sort_field_exec(s: StatSort) -> (r: &'static str)
    ensures
        r@ == sort_field_name(s),
{
    match s {
        StatSort::Name => "Name",
        StatSort::Cpu => "CPU %",
        StatSort::Memory => "Memory",
        StatSort::NetRx => "Net Rx",
        StatSort::NetTx => "Net Tx",
        StatSort::BlockRead => "Block Read",
        StatSort::BlockWrite => "Block Write",
        StatSort::Pids => "PIDs",
    }
}

/// The note on the statistics title (see [`sort_note`]).
pub fn sort_label(sort_by: &StatSort, ascending: bool) -> (r: String)
    ensures
        r@ == sort_note(*sort_by, ascending),
{
    let a = concat(" (sorted by ", sort_field_exec(*sort_by));
    let b = concat(a.as_str(), if ascending { " \u{25b4}" } else { " \u{25be}" });
    concat(b.as_str(), ")")
}

/// The key hints shown in the status bar of each view.
pub open spec fn hints(mode: Mode) -> Seq<char> {
    match mode {
        Mode::Containers => " Enter:details  l:logs  s:shell  /:filter  S:status  ←/→:sort  ^T:direction  Ctrl+U/D:page  g/G:top/bot  t:start/stop  r:restart  d:delete  Space:select "@,
        Mode::ContainerDetails(_) => " j/k:scroll  PgUp/PgDn:page  g/G:top/bot  l:logs  s:shell  x:explorer  t:start/stop  r:restart  Esc:back "@,
        Mode::Logs(_) => " j/k:scroll  PgUp/PgDn:page  g/G:top/bot  /:search  p:pause  T:timestamps  s:export  Esc:back "@,
        Mode::Images => " ←/→:sort  ^T:direction  /:filter  r:run  d:delete  D:dangling  p:prune  Ctrl+U/D:page  g/G:top/bot "@,
        Mode::ImageRun(_) => " Tab/↓:next  ↑:prev  Enter:run  a:toggle  ^A:advanced  Esc:back "@,
        Mode::Shell(_) => " Type commands  Ctrl+D/Ctrl+C:exit  Esc:close "@,
        Mode::ShellConfig(_) => " Tab/↓:next  ↑:prev  Enter:save+launch  Esc:back "@,
        Mode::Events => " /:filter  j/k:scroll  g/G:top/bot  Esc:back "@,
        Mode::Statistics => " ←/→:sort field  ^T:direction  Esc:back "@,
        Mode::Networks => " ←/→:sort  ^T:direction  d:delete  Esc:back "@,
        Mode::Volumes => " ←/→:sort  ^T:direction  d:delete  Esc:back "@,
        Mode::Explorer(_) | Mode::ExplorerVolume(_, _) => " Tab:focus  ↑/↓:nav  Enter:dir  Backspace:up  PgUp/PgDn:page  g/G:top/bot  /:filter  r:rename  R:refresh  d:delete  ^C:copy  Esc:back "@,
        Mode::Help => " Esc:back  j/k:scroll  PgUp/PgDn:page  g/G:top/bot "@,
        Mode::ConfirmDialog { .. } => " y:yes  n:no  Enter:yes  Esc:no "@,
    }
}

/// The key hints of a view (see [`hints`]).
pub fn shortcuts(mode: &Mode) -> (r: &'static str)
    ensures
        r@ == hints(*mode),
{
    match mode {
        Mode::Containers => " Enter:details  l:logs  s:shell  /:filter  S:status  ←/→:sort  ^T:direction  Ctrl+U/D:page  g/G:top/bot  t:start/stop  r:restart  d:delete  Space:select ",
        Mode::ContainerDetails(_) => " j/k:scroll  PgUp/PgDn:page  g/G:top/bot  l:logs  s:shell  x:explorer  t:start/stop  r:restart  Esc:back ",
        Mode::Logs(_) => " j/k:scroll  PgUp/PgDn:page  g/G:top/bot  /:search  p:pause  T:timestamps  s:export  Esc:back ",
        Mode::Images => " ←/→:sort  ^T:direction  /:filter  r:run  d:delete  D:dangling  p:prune  Ctrl+U/D:page  g/G:top/bot ",
        Mode::ImageRun(_) => " Tab/↓:next  ↑:prev  Enter:run  a:toggle  ^A:advanced  Esc:back ",
        Mode::Shell(_) => " Type commands  Ctrl+D/Ctrl+C:exit  Esc:close ",
        Mode::ShellConfig(_) => " Tab/↓:next  ↑:prev  Enter:save+launch  Esc:back ",
        Mode::Events => " /:filter  j/k:scroll  g/G:top/bot  Esc:back ",
        Mode::Statistics => " ←/→:sort field  ^T:direction  Esc:back ",
        Mode::Networks => " ←/→:sort  ^T:direction  d:delete  Esc:back ",
        Mode::Volumes => " ←/→:sort  ^T:direction  d:delete  Esc:back ",
        Mode::Explorer(_) | Mode::ExplorerVolume(_, _) => " Tab:focus  ↑/↓:nav  Enter:dir  Backspace:up  PgUp/PgDn:page  g/G:top/bot  /:filter  r:rename  R:refresh  d:delete  ^C:copy  Esc:back ",
        Mode::Help => " Esc:back  j/k:scroll  PgUp/PgDn:page  g/G:top/bot ",
        Mode::ConfirmDialog { .. } => " y:yes  n:no  Enter:yes  Esc:no ",
    }
}

/// The first error of the run form that points at row `field`, at or after
/// position `i` of the list.
pub open spec fn first_error(errors: Seq<(usize, String)>, field: usize, i: int) -> Option<Seq<char>>
    decreases errors.len() - i,
{
    if i < 0 || i >= errors.len() {
        None
    } else if errors[i].0 == field {
        Some(errors[i].1@)
    } else {
        first_error(errors, field, i + 1)
    }
}

/// The error shown beside row `field` of the run form: the first one that
/// points at it.
pub fn field_has_error(run: &ImageRunState, field: usize) -> (r: Option<&str>)
    ensures
        (match r { Some(m) => Some(m@), None => None }) == first_error(run.validation_errors@, field, 0),
{
    let mut i: usize = 0;
    while i < run.validation_errors.len()
        invariant
            i <= run.validation_errors@.len(),
            first_error(run.validation_errors@, field, i as int) == first_error(run.validation_errors@, field, 0),
        decreases run.validation_errors@.len() - i,
    {
        if run.validation_errors[i].0 == field {
            return Some(run.validation_errors[i].1.as_str());
        }
        i = i + 1;
    }
    None
}

} // verus!

verus! {

/// How fresh a list looks, `elapsed` milliseconds after its last refresh
/// with a refresh every `interval_ms`: a full dot in green within two
/// intervals, a hollow dot in yellow within five, a dotted circle in red
/// after that; a grey '?' when it was never refreshed.
pub open spec fn freshness(elapsed: Option<int>, interval_ms: u64) -> (char, Color) {
    match elapsed {
        Some(e) => if e < 2 * interval_ms {
            ('●', Color::Green)
        } else if e < 5 * interval_ms {
            ('○', Color::Yellow)
        } else {
            ('◌', Color::Red)
        },
        None => ('?', Color::DarkGray),
    }
}

/// The time since `last_updated` at clock time `now`, in milliseconds (none
/// when there was no refresh; a clock that went back counts as no time).
pub open spec fn elapsed_since(last_updated: Option<u64>, now: u64) -> Option<int> {
    match last_updated {
        Some(t) => Some(if now >= t { now - t } else { 0 }),
        None => None,
    }
}

/// The freshness indicator of a list at clock time `now` (see
/// [`freshness`]).
pub fn staleness_at(last_updated: Option<u64>, now: u64, interval_ms: u64) -> (r: (char, Color))
    ensures
        r == freshness(elapsed_since(last_updated, now), interval_ms),
{
    match last_updated {
        Some(t) => {
            let e: u64 = if now >= t { now - t } else { 0 };
            let e_wide: u128 = e as u128;
            let i_wide: u128 = interval_ms as u128;
            if e_wide < 2 * i_wide {
                ('●', Color::Green)
            } else if e_wide < 5 * i_wide {
                ('○', Color::Yellow)
            } else {
                ('◌', Color::Red)
            }
        },
        None => ('?', Color::DarkGray),
    }
}

/// The freshness indicator of a list now, by the system clock (see
/// [`staleness_at`]).
pub fn staleness_indicator(last_updated: Option<u64>, interval_ms: u64) -> (r: (char, Color))
    ensures
        exists|now: u64| r == freshness(elapsed_since(last_updated, now), interval_ms),
        last_updated is None ==> r == ('?', Color::DarkGray),
{
    let now = crate::reducer::clock_millis();
    staleness_at(last_updated, now, interval_ms)
}

} // verus!

verus! {

/// Whether the events view shows an event under a filter: every event when
/// the filter is empty, else those whose kind, action or actor contains it.
pub open spec fn event_shown(e: crate::event::DockerEvent, filter: Seq<char>) -> bool {
    filter.len() == 0 || crate::text::contains_seq(e.kind@, filter) || crate::text::contains_seq(e.action@, filter)
        || crate::text::contains_seq(e.actor@, filter)
}

/// Whether the events view shows an event (see [`event_shown`]).
pub fn event_matches(e: &crate::event::DockerEvent, filter: &str) -> (r: bool)
    ensures
        r == event_shown(*e, filter@),
{
    filter.unicode_len() == 0 || crate::text::str_contains(e.kind.as_str(), filter)
        || crate::text::str_contains(e.action.as_str(), filter) || crate::text::str_contains(e.actor.as_str(), filter)
}

} // verus!
