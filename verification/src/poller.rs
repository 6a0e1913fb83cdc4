//! The container poller's rule for failed fetches: a failure is reported
//! and counted, a success resets the count, and the third failure in a row
//! reports the connection as lost and ends the polling.

use vstd::prelude::*;
use crate::event::{AppEvent, ContainerSummary};
use crate::text::concat;

verus! {

/// How many failures in a row end the polling.
pub const MAX_FAILURES: u8 = 3;

/// The failure count after one more failure (it never passes 255).
pub open spec fn one_more(errors: u8) -> u8 {
    if errors < 255 { (errors + 1) as u8 } else { 255 }
}

/// What follows one fetch of the container list, given the failures in a
/// row before it: `r` is the new count, the event to report, and whether
/// the polling stops. A success resets the count and reports the list; a
/// failure counts, and is reported as a message until the count reaches
/// [`MAX_FAILURES`], when the connection is reported lost and polling stops.
pub open spec fn poll_next(errors: u8, outcome: Result<Vec<ContainerSummary>, String>, r: (u8, AppEvent, bool)) -> bool {
    match outcome {
        Ok(items) => r == (0u8, AppEvent::ContainersUpdated(items), false),
        Err(e) => {
            let n = one_more(errors);
            &&& r.0 == n
            &&& if n >= MAX_FAILURES {
                &&& r.1 matches AppEvent::DockerConnectionLost(m) && m@ == "Docker connection lost: "@ + e@
                &&& r.2
            } else {
                &&& r.1 matches AppEvent::Info(m) && m@ == "Docker: "@ + e@
                &&& !r.2
            }
        },
    }
}

/// What follows one fetch of the container list (see [`poll_next`]).
pub fn poll_step(errors: u8, outcome: Result<Vec<ContainerSummary>, String>) -> (r: (u8, AppEvent, bool))
    ensures
        poll_next(errors, outcome, r),
{
    match outcome {
        Ok(items) => (0, AppEvent::ContainersUpdated(items), false),
        Err(e) => {
            let n: u8 = if errors < 255 { errors + 1 } else { 255 };
            if n >= MAX_FAILURES {
                (n, AppEvent::DockerConnectionLost(concat("Docker connection lost: ", e.as_str())), true)
            } else {
                (n, AppEvent::Info(concat("Docker: ", e.as_str())), false)
            }
        },
    }
}

} // verus!
