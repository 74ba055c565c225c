//! The per-client request limit: a counter per address that lives for one
//! window.
use vstd::prelude::*;

verus! {

/// Requests a client may make in one window.
pub const RATE_LIMIT_MAX_REQUESTS: i64 = 20;

/// Length of a window in seconds; the counter expires after it.
pub const RATE_LIMIT_WINDOW_SECS: i64 = 60;

/// What to do with a request, given the client's counter after counting it.
#[derive(Clone, Copy, Debug, PartialEq, Eq, Structural)]
pub struct RateDecision {
    /// The counter was just created: give it the window's lifetime.
    pub start_window: bool,
    /// The request may go on; otherwise it is answered 429.
    pub allow: bool,
}

pub fn rate_limit_decision(count: i64) -> (r: RateDecision)
    ensures
        r.start_window == (count == 1),
        r.allow == (count <= RATE_LIMIT_MAX_REQUESTS),
{
    RateDecision { start_window: count == 1, allow: count <= RATE_LIMIT_MAX_REQUESTS }
}

} // verus!
