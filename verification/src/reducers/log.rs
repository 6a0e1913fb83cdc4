//! The log view: new lines from the stream, pausing, searching, scrolling
//! and exporting.

use vstd::prelude::*;
use crate::event::{AppEvent, Command, LogEntry};
use crate::reducers::navigation::new_log_state;
use crate::reducers::{scroll_offset, scrolled};
use crate::state::{AppState, LogState, NavigationState};
use crate::text::{concat, owned, str_eq};

verus! {

/// `buffer` with `lines` appended, cut back to its first `max` entries when
/// it grows past them.
pub open spec fn appended<T>(buffer: Seq<T>, lines: Seq<T>, max: usize) -> Seq<T> {
    let all = buffer + lines;
    if all.len() > max { all.take(max as int) } else { all }
}

/// A bounded buffer never holds more than its bound, and what it holds is
/// the start of the old lines followed by the new ones: lines arriving at a
/// full buffer are dropped, and no line ever changes place.
pub proof fn lemma_appended_bounded<T>(buffer: Seq<T>, lines: Seq<T>, max: usize)
    ensures
        appended(buffer, lines, max).len() <= max,
        appended(buffer, lines, max) == (buffer + lines).take(appended(buffer, lines, max).len() as int),
        buffer.len() + lines.len() <= max ==> appended(buffer, lines, max) == buffer + lines,
{
    let all = buffer + lines;
    if all.len() <= max {
        assert(all.take(all.len() as int) =~= all);
    }
}

/// `a + b`, or the largest `usize` when that overflows.
pub open spec fn saturating_add(a: usize, b: nat) -> usize {
    if a + b > usize::MAX { usize::MAX } else { (a + b) as usize }
}

/// The log view after lines for container `id` arrived: a view of another
/// container (or none) is replaced by a fresh one first; the lines are
/// appended, a paused view keeps its place by moving its offset down, and a
/// view that follows the tail goes back to the bottom.
pub open spec fn log_lines_post(l0: Option<LogState>, id: String, lines: Seq<LogEntry>, l1: LogState) -> bool {
    match l0 {
        Some(l) if l.container_id@ == id@ => {
            let moved = if l.paused { saturating_add(l.scroll_offset, lines.len()) } else { l.scroll_offset };
            &&& l1 == LogState { buffer: l1.buffer, scroll_offset: if l.tail { 0 } else { moved }, ..l }
            &&& l1.buffer@ == appended(l.buffer@, lines, l.max_lines)
        },
        _ => {
            &&& l1.container_id == id
            &&& l1.max_lines == 10000
            &&& !l1.paused
            &&& l1.search@.len() == 0
            &&& !l1.search_active
            &&& l1.scroll_offset == 0
            &&& l1.tail
            &&& !l1.show_timestamps
            &&& l1.viewport_height == 0
            &&& l1.buffer@ == appended(Seq::empty(), lines, 10000)
        },
    }
}

fn append_lines(log: &mut LogState, lines: &Vec<LogEntry>)
    ensures
        *final(log) == (LogState { buffer: final(log).buffer, ..*old(log) }),
        final(log).buffer@ == appended(old(log).buffer@, lines@, old(log).max_lines),
{
    let ghost b0 = log.buffer@;
    let mut i: usize = 0;
    while i < lines.len()
        invariant
            i <= lines@.len(),
            *log == (LogState { buffer: log.buffer, ..*old(log) }),
            log.buffer@ == b0 + lines@.subrange(0, i as int),
        decreases lines@.len() - i,
    {
        log.buffer.push(lines[i].clone());
        assert(log.buffer@ =~= b0 + lines@.subrange(0, i + 1));
        i = i + 1;
    }
    assert(lines@.subrange(0, i as int) =~= lines@);
    if log.buffer.len() > log.max_lines {
        log.buffer.truncate(log.max_lines);
    }
}

/// The state with only the log view replaced.
pub open spec fn with_logs(s0: AppState, logs: Option<LogState>) -> AppState {
    AppState { navigation: NavigationState { logs: logs, ..s0.navigation }, ..s0 }
}

/// The file name stem under which the log of container `id` is exported.
pub open spec fn log_export_stem(id: Seq<char>) -> Seq<char> {
    "omdocker_logs_"@ + id
}

/// The messages of a log buffer, oldest first.
pub open spec fn messages(b: Seq<LogEntry>) -> Seq<Seq<char>> {
    b.map_values(|e: LogEntry| e.message@)
}

/// What the log reducer does with each event it handles; other events
/// change nothing.
pub open spec fn log_post(s0: AppState, event: AppEvent, s1: AppState, cmds: Seq<Command>) -> bool {
    let logs = s0.navigation.logs;
    match event {
        AppEvent::LogLines(id, lines) => {
            &&& s1 == with_logs(s0, s1.navigation.logs)
            &&& s1.navigation.logs matches Some(l1) && log_lines_post(logs, id, lines@, l1)
            &&& cmds.len() == 0
        },
        AppEvent::TogglePause => cmds.len() == 0 && match logs {
            Some(l) => s1 == with_logs(s0, Some(if l.paused {
                LogState { paused: false, tail: true, scroll_offset: 0, ..l }
            } else {
                LogState { paused: true, tail: false, ..l }
            })),
            None => s1 == s0,
        },
        AppEvent::ActivateLogSearch => cmds.len() == 0 && match logs {
            Some(l) => s1 == with_logs(s0, Some(LogState { search_active: true, ..l })),
            None => s1 == s0,
        },
        AppEvent::SearchLogs(q) => cmds.len() == 0 && match logs {
            Some(l) => s1 == with_logs(s0, Some(LogState { search: q, search_active: q@.len() > 0, ..l })),
            None => s1 == s0,
        },
        AppEvent::SubmitLogSearch => cmds.len() == 0 && match logs {
            Some(l) => s1 == with_logs(s0, Some(LogState { search_active: false, ..l })),
            None => s1 == s0,
        },
        AppEvent::ScrollLogs(delta) => cmds.len() == 0 && match logs {
            Some(l) => {
                let max = if l.buffer@.len() > l.viewport_height { (l.buffer@.len() - l.viewport_height) as usize } else { 0 };
                let off = scrolled(l.scroll_offset, delta, max);
                s1 == with_logs(s0, Some(LogState { scroll_offset: off, tail: off == 0, ..l }))
            },
            None => s1 == s0,
        },
        AppEvent::ToggleLogTimestamps => cmds.len() == 0 && match logs {
            Some(l) => s1 == with_logs(s0, Some(LogState { show_timestamps: !l.show_timestamps, ..l })),
            None => s1 == s0,
        },
        AppEvent::ExportLogs(id) => {
            let lines = match logs { Some(l) => messages(l.buffer@), None => Seq::empty() };
            if lines.len() == 0 {
                &&& s1 == AppState { error: s1.error, error_timer: 5, ..s0 }
                &&& s1.error matches Some(e) && e@ == "No logs to export"@
                &&& cmds.len() == 0
            } else {
                &&& s1 == s0
                &&& cmds.len() == 1
                &&& cmds[0] matches Command::ExportLogs(stem, out) && stem@ == log_export_stem(id@)
                    && crate::config::texts(out@) == lines
            }
        },
        _ => s1 == s0 && cmds.len() == 0,
    }
}

fn log_messages(b: &Vec<LogEntry>) -> (r: Vec<String>)
    ensures
        crate::config::texts(r@) == messages(b@),
{
    let mut out: Vec<String> = Vec::new();
    let mut i: usize = 0;
    while i < b.len()
        invariant
            i <= b@.len(),
            crate::config::texts(out@) == messages(b@.subrange(0, i as int)),
        decreases b@.len() - i,
    {
        let ghost before = out@;
        out.push(b[i].message.clone());
        assert(out@ == before.push(b@[i as int].message));
        assert(b@.subrange(0, i + 1) == b@.subrange(0, i as int).push(b@[i as int]));
        assert(crate::config::texts(out@) =~= crate::config::texts(before).push(b@[i as int].message@));
        assert(messages(b@.subrange(0, i + 1)) =~= messages(b@.subrange(0, i as int)).push(b@[i as int].message@));
        i = i + 1;
    }
    assert(b@.subrange(0, i as int) =~= b@);
    out
}

fn on_log_lines(state: &mut AppState, id: &String, lines: &Vec<LogEntry>)
    ensures
        log_post(*old(state), AppEvent::LogLines(*id, *lines), *final(state), Seq::empty()),
{
    let swap = match &state.navigation.logs {
        Some(l) => !str_eq(l.container_id.as_str(), id.as_str()),
        None => true,
    };
    let mut log = if swap {
        new_log_state(id.clone())
    } else {
        match state.navigation.logs.take() {
            Some(l) => l,
            None => new_log_state(id.clone()),
        }
    };
    let ghost mid = log;
    append_lines(&mut log, lines);
    if log.paused {
        let n = lines.len();
        log.scroll_offset = if log.scroll_offset > usize::MAX - n { usize::MAX } else { log.scroll_offset + n };
    }
    if log.tail {
        log.scroll_offset = 0;
    }
    proof {
        if swap {
            assert(mid.buffer@ =~= Seq::<LogEntry>::empty());
        }
    }
    state.navigation.logs = Some(log);
}

fn export_logs(state: &mut AppState, id: &String) -> (r: Vec<Command>)
    ensures
        log_post(*old(state), AppEvent::ExportLogs(*id), *final(state), r@),
{
    let lines = match &state.navigation.logs {
        Some(l) => log_messages(&l.buffer),
        None => Vec::new(),
    };
    let mut commands: Vec<Command> = Vec::new();
    if lines.len() == 0 {
        state.error = Some(owned("No logs to export"));
        state.error_timer = 5;
    } else {
        let stem = concat("omdocker_logs_", id.as_str());
        commands.push(Command::ExportLogs(stem, lines));
    }
    commands
}

/// The log reducer (see [`log_post`]).
pub fn reduce(state: &mut AppState, event: &AppEvent) -> (r: Vec<Command>)
    ensures
        log_post(*old(state), *event, *final(state), r@),
{
    match event {
        AppEvent::LogLines(id, lines) => {
            on_log_lines(state, id, lines);
            return Vec::new();
        }
        AppEvent::ExportLogs(id) => {
            return export_logs(state, id);
        }
        _ => {}
    }
    let mut logs = state.navigation.logs.take();
    if let Some(l) = &mut logs {
        match event {
            AppEvent::TogglePause => {
                l.paused = !l.paused;
                if l.paused {
                    l.tail = false;
                } else {
                    l.tail = true;
                    l.scroll_offset = 0;
                }
            }
            AppEvent::ActivateLogSearch => l.search_active = true,
            AppEvent::SearchLogs(q) => {
                l.search = q.clone();
                l.search_active = !q.as_str().is_empty();
            }
            AppEvent::SubmitLogSearch => l.search_active = false,
            AppEvent::ScrollLogs(delta) => {
                let n = l.buffer.len();
                let max = if n > l.viewport_height { n - l.viewport_height } else { 0 };
                l.scroll_offset = scroll_offset(l.scroll_offset, *delta, max);
                l.tail = l.scroll_offset == 0;
            }
            AppEvent::ToggleLogTimestamps => l.show_timestamps = !l.show_timestamps,
            _ => {}
        }
    }
    state.navigation.logs = logs;
    Vec::new()
}

} // verus!
