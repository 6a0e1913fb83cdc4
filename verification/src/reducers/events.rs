//! The events view: new events from the daemon, filtering, scrolling and
//! exporting.

use vstd::prelude::*;
use crate::event::{AppEvent, Command, DockerEvent};
use crate::reducers::log::appended;
use crate::reducers::{scroll_offset, scrolled};
use crate::state::{AppState, EventsState};
use crate::text::{concat, owned};

verus! {

/// One exported line: time, kind, action and actor, separated by spaces.
pub open spec fn event_line(e: DockerEvent) -> Seq<char> {
    e.timestamp@ + " "@ + e.kind@ + " "@ + e.action@ + " "@ + e.actor@
}

/// The exported lines of an event buffer, oldest first.
pub open spec fn event_lines(b: Seq<DockerEvent>) -> Seq<Seq<char>> {
    b.map_values(|e: DockerEvent| event_line(e))
}

/// The file name stem under which the events are exported.
pub open spec fn events_export_stem() -> Seq<char> {
    "omdocker_events"@
}

/// What the events reducer does with each event it handles; other events
/// change nothing.
pub open spec fn events_post(s0: AppState, event: AppEvent, now: u64, s1: AppState, cmds: Seq<Command>) -> bool {
    let e0 = s0.events;
    match event {
        AppEvent::EventsUpdated(list) => {
            &&& s1 == AppState { events: EventsState { buffer: s1.events.buffer, last_updated: Some(now), ..e0 }, ..s0 }
            &&& s1.events.buffer@ == appended(e0.buffer@, list@, e0.max_events)
            &&& cmds.len() == 0
        },
        AppEvent::ActivateEventsFilter => s1 == AppState { events: EventsState { filter_active: true, ..e0 }, ..s0 } && cmds.len() == 0,
        AppEvent::EventsFilterSubmit => s1 == AppState { events: EventsState { filter_active: false, ..e0 }, ..s0 } && cmds.len() == 0,
        AppEvent::FilterEvents(q) => s1 == AppState {
            events: EventsState { filter: q, filter_active: if q@.len() == 0 { false } else { e0.filter_active }, ..e0 },
            ..s0
        } && cmds.len() == 0,
        AppEvent::ScrollEvents(delta) => {
            let max = if e0.buffer@.len() > e0.viewport_height { (e0.buffer@.len() - e0.viewport_height) as usize } else { 0 };
            s1 == AppState { events: EventsState { scroll_offset: scrolled(e0.scroll_offset, delta, max), ..e0 }, ..s0 } && cmds.len() == 0
        },
        AppEvent::ExportEvents => if e0.buffer@.len() == 0 {
            &&& s1 == AppState { error: s1.error, error_timer: 5, ..s0 }
            &&& s1.error matches Some(e) && e@ == "No events to export"@
            &&& cmds.len() == 0
        } else {
            &&& s1 == s0
            &&& cmds.len() == 1
            &&& cmds[0] matches Command::ExportLogs(stem, out) && stem@ == events_export_stem()
                && crate::config::texts(out@) == event_lines(e0.buffer@)
        },
        _ => s1 == s0 && cmds.len() == 0,
    }
}

fn export_line(e: &DockerEvent) -> (r: String)
    ensures
        r@ == event_line(*e),
{
    let a = concat(e.timestamp.as_str(), " ");
    let a = concat(a.as_str(), e.kind.as_str());
    let a = concat(a.as_str(), " ");
    let a = concat(a.as_str(), e.action.as_str());
    let a = concat(a.as_str(), " ");
    concat(a.as_str(), e.actor.as_str())
}

fn export_lines(b: &Vec<DockerEvent>) -> (r: Vec<String>)
    ensures
        crate::config::texts(r@) == event_lines(b@),
{
    let mut out: Vec<String> = Vec::new();
    let mut i: usize = 0;
    while i < b.len()
        invariant
            i <= b@.len(),
            crate::config::texts(out@) == event_lines(b@.subrange(0, i as int)),
        decreases b@.len() - i,
    {
        let ghost before = out@;
        let line = export_line(&b[i]);
        out.push(line);
        assert(out@ == before.push(line));
        assert(b@.subrange(0, i + 1) == b@.subrange(0, i as int).push(b@[i as int]));
        assert(crate::config::texts(out@) =~= crate::config::texts(before).push(event_line(b@[i as int])));
        assert(event_lines(b@.subrange(0, i + 1)) =~= event_lines(b@.subrange(0, i as int)).push(event_line(b@[i as int])));
        i = i + 1;
    }
    assert(b@.subrange(0, i as int) =~= b@);
    out
}

fn append_events(events: &mut EventsState, list: &Vec<DockerEvent>)
    ensures
        *final(events) == (EventsState { buffer: final(events).buffer, ..*old(events) }),
        final(events).buffer@ == appended(old(events).buffer@, list@, old(events).max_events),
{
    let ghost b0 = events.buffer@;
    let mut i: usize = 0;
    while i < list.len()
        invariant
            i <= list@.len(),
            *events == (EventsState { buffer: events.buffer, ..*old(events) }),
            events.buffer@ == b0 + list@.subrange(0, i as int),
        decreases list@.len() - i,
    {
        events.buffer.push(list[i].clone());
        assert(events.buffer@ =~= b0 + list@.subrange(0, i + 1));
        i = i + 1;
    }
    assert(list@.subrange(0, i as int) =~= list@);
    if events.buffer.len() > events.max_events {
        events.buffer.truncate(events.max_events);
    }
}

/// The events reducer (see [`events_post`]).
pub fn reduce(state: &mut AppState, event: &AppEvent, now: u64) -> (r: Vec<Command>)
    ensures
        events_post(*old(state), *event, now, *final(state), r@),
{
    let mut commands: Vec<Command> = Vec::new();
    match event {
        AppEvent::EventsUpdated(list) => {
            append_events(&mut state.events, list);
            state.events.last_updated = Some(now);
        }
        AppEvent::ActivateEventsFilter => state.events.filter_active = true,
        AppEvent::EventsFilterSubmit => state.events.filter_active = false,
        AppEvent::FilterEvents(q) => {
            state.events.filter = q.clone();
            if state.events.filter.as_str().is_empty() {
                state.events.filter_active = false;
            }
        }
        AppEvent::ScrollEvents(delta) => {
            let n = state.events.buffer.len();
            let max = if n > state.events.viewport_height { n - state.events.viewport_height } else { 0 };
            state.events.scroll_offset = scroll_offset(state.events.scroll_offset, *delta, max);
        }
        AppEvent::ExportEvents => {
            if state.events.buffer.len() == 0 {
                state.error = Some(owned("No events to export"));
                state.error_timer = 5;
            } else {
                let lines = export_lines(&state.events.buffer);
                commands.push(Command::ExportLogs(owned("omdocker_events"), lines));
            }
        }
        _ => {}
    }
    commands
}

} // verus!
