//! Reading the lines the daemon sends for a container's log: each line
//! starts with its timestamp, and the newest timestamp seen tells the next
//! poll where to resume.

use vstd::prelude::*;
use crate::event::LogEntry;
use crate::text::{chars_of, slice_chars, string_of};

verus! {

/// The Unix time of a date and time written as "%Y-%m-%dT%H:%M:%S" and
/// read as UTC, when the text is one.
pub uninterp spec fn utc_seconds_of(text: Seq<char>) -> Option<i64>;

/// `chrono::NaiveDateTime::parse_from_str` with the format
/// "%Y-%m-%dT%H:%M:%S", then `and_utc().timestamp()`. The contract names
/// the result and says only that it depends on the text alone; chrono's
/// calendar rules are not restated.
#[verifier::external_body]
fn naive_utc_seconds(text: &str) -> (r: Option<i64>)
    ensures
        r == utc_seconds_of(text@),
{
    match chrono::NaiveDateTime::parse_from_str(text, "%Y-%m-%dT%H:%M:%S") {
        Ok(dt) => Some(dt.and_utc().timestamp()),
        Err(_) => None,
    }
}

/// The Unix time of a Docker log timestamp: its first 19 characters read
/// as a date and time, for a timestamp of at least 20 characters.
pub open spec fn docker_timestamp(s: Seq<char>) -> Option<i64> {
    if s.len() < 20 { None } else { utc_seconds_of(s.subrange(0, 19)) }
}

/// The Unix time of a Docker log timestamp (see [`docker_timestamp`]).
pub fn parse_docker_timestamp(s: &str) -> (r: Result<i64, ()>)
    ensures
        r == (match docker_timestamp(s@) { Some(t) => Ok(t), None => Err(()) }),
{
    let cs = chars_of(s);
    if cs.len() < 20 {
        return Err(());
    }
    let head = slice_chars(&cs, 0, 19);
    let text = string_of(head.as_slice());
    match naive_utc_seconds(text.as_str()) {
        Some(t) => Ok(t),
        None => Err(()),
    }
}

/// Where the first space of `s` is, if it has one.
pub open spec fn first_space(s: Seq<char>) -> Option<int> {
    if exists|i: int| 0 <= i < s.len() && s[i] == ' ' {
        Some(choose|i: int| 0 <= i < s.len() && s[i] == ' ' && forall|j: int| 0 <= j < i ==> s[j] != ' ')
    } else {
        None
    }
}

/// A raw log line split at its first space into the timestamp and the
/// message; a line without a space is all message.
pub open spec fn split_line(s: Seq<char>) -> (Seq<char>, Seq<char>) {
    match first_space(s) {
        Some(i) => (s.subrange(0, i), s.subrange(i + 1, s.len() as int)),
        None => (Seq::empty(), s),
    }
}

/// The log entry of a raw log line (see [`split_line`]).
pub fn log_entry_of(raw: &str) -> (r: LogEntry)
    ensures
        (r.timestamp@, r.message@) == split_line(raw@),
{
    let cs = chars_of(raw);
    let mut i: usize = 0;
    while i < cs.len() && cs[i] != ' '
        invariant
            i <= cs@.len(),
            cs@ == raw@,
            forall|j: int| 0 <= j < i ==> cs@[j] != ' ',
        decreases cs@.len() - i,
    {
        i = i + 1;
    }
    if i < cs.len() {
        proof {
            let w = choose|k: int| 0 <= k < cs@.len() && cs@[k] == ' ' && forall|j: int| 0 <= j < k ==> cs@[j] != ' ';
            assert(0 <= i < cs@.len() && cs@[i as int] == ' ' && forall|j: int| 0 <= j < i ==> cs@[j] != ' ');
            if w < i {
                assert(cs@[w] != ' ');
            }
            if w > i {
                assert(cs@[i as int] != ' ');
            }
            assert(w == i);
        }
        let ts = slice_chars(&cs, 0, i);
        let msg = slice_chars(&cs, i + 1, cs.len());
        LogEntry { timestamp: string_of(ts.as_slice()), message: string_of(msg.as_slice()) }
    } else {
        LogEntry { timestamp: String::new(), message: string_of(cs.as_slice()) }
    }
}

/// The newest log time after a line with timestamp `ts`: the later of the
/// newest so far and the line's time, when its timestamp reads.
pub open spec fn newer_time(latest: i64, ts: Seq<char>) -> i64 {
    match docker_timestamp(ts) {
        Some(t) => if t > latest { t } else { latest },
        None => latest,
    }
}

/// The newest log time after a line with timestamp `ts` (see
/// [`newer_time`]).
pub fn note_timestamp(latest: i64, ts: &str) -> (r: i64)
    ensures
        r == newer_time(latest, ts@),
{
    match parse_docker_timestamp(ts) {
        Ok(t) => if t > latest { t } else { latest },
        Err(_) => latest,
    }
}

} // verus!
