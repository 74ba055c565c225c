//! Delayed retries: the schedule of back-off delays, and the timer keys whose
//! expiry wakes a retry up again.
use vstd::prelude::*;
use crate::text::{has_prefix, decimal_text, lemma_parse_decimal_text, parse_i64_from, parse_i64_text, push_decimal};

verus! {

/// Number of retries after the first attempt; the attempt count of an event
/// never goes past it.
pub const MAX_RETRIES: u32 = 4;

/// Seconds the subscriber of expiry notifications waits before it connects again.
pub const RESUBSCRIBE_DELAY_SECS: u64 = 2;

/// The back-off delay in seconds after a failed attempt, by the number of
/// attempts made before it; `None` once the retries are spent.
pub open spec fn retry_delay(attempts: u32) -> Option<i64> {
    if attempts == 0 {
        Some(30)
    } else if attempts == 1 {
        Some(120)
    } else if attempts == 2 {
        Some(600)
    } else if attempts == 3 {
        Some(3600)
    } else {
        None
    }
}

/// The time of the next attempt, in unix seconds.
pub open spec fn next_retry_at(attempts: u32, now: i64) -> Option<i64> {
    match retry_delay(attempts) {
        Some(d) => Some((now + d) as i64),
        None => None,
    }
}

/// Timestamps are unix seconds, far enough from the end of `i64` that any
/// delay or grace period can be added.
pub open spec fn valid_time(t: i64) -> bool {
    0 <= t <= i64::MAX / 2
}

pub open spec fn retry_key_prefix() -> Seq<char> {
    seq!['w', 'e', 'b', 'h', 'o', 'o', 'k', ':', 'r', 'e', 't', 'r', 'y', ':']
}

/// The timer key of an event: the reserved prefix, then the event id.
pub open spec fn retry_key_text(event_id: i64) -> Seq<char> {
    retry_key_prefix() + decimal_text(event_id as int)
}

/// The event id that an expired key names, if it carries the reserved prefix.
pub open spec fn retry_key_event(key: Seq<char>) -> Option<i64> {
    let n = retry_key_prefix().len();
    if key.len() >= n && key.subrange(0, n as int) == retry_key_prefix() {
        parse_i64_text(key.subrange(n as int, key.len() as int))
    } else {
        None
    }
}

pub open spec fn ttl_spec(retry_at: i64, now: i64) -> int {
    if retry_at - now < 1 {
        1
    } else {
        retry_at - now
    }
}

/// Relies on chrono's `Utc::now` and `DateTime::timestamp`: the system clock
/// in unix seconds. `Utc::now` panics on a clock before the epoch, so the value
/// is never negative, and chrono's dates end in year 262142, far below the
/// upper bound.
#[verifier::external_body]
fn utc_now_seconds() -> (r: i64)
    ensures
        valid_time(r),
{
    chrono::Utc::now().timestamp()
}

/// The current time in unix seconds.
pub fn current_time() -> (r: i64)
    ensures
        valid_time(r),
{
    utc_now_seconds()
}

/// The back-off delay after a failed attempt.
pub fn retry_delay_secs(attempts: u32) -> (r: Option<i64>)
    ensures
        r == retry_delay(attempts),
{
    match attempts {
        0 => Some(30),
        1 => Some(120),
        2 => Some(600),
        3 => Some(3600),
        _ => None,
    }
}

/// When the next attempt is due after a failure, counting from `now`;
/// `None` once `attempts` has reached the retry budget.
pub fn compute_next_retry(attempts: u32, now: i64) -> (r: Option<i64>)
    requires
        valid_time(now),
    ensures
        r == next_retry_at(attempts, now),
        r.is_none() <==> attempts >= MAX_RETRIES,
{
    match retry_delay_secs(attempts) {
        Some(d) => Some(now + d),
        None => None,
    }
}

/// The timer key of an event, `webhook:retry:<event_id>`.
pub fn retry_key(event_id: i64) -> (r: String)
    ensures
        r@ == retry_key_text(event_id),
{
    let mut key = String::from_str("webhook:retry:");
    proof {
        reveal_strlit("webhook:retry:");
    }
    assert(key@ =~= retry_key_prefix());
    push_decimal(&mut key, event_id);
    key
}

/// The event id named by an expired key; `None` for any key without the
/// reserved prefix, or whose rest is not an integer.
pub fn parse_webhook_retry_key(key: &str) -> (r: Option<i64>)
    ensures
        r == retry_key_event(key@),
{
    let prefix = "webhook:retry:";
    proof {
        reveal_strlit("webhook:retry:");
    }
    assert(prefix@ =~= retry_key_prefix());
    if !has_prefix(key, prefix) {
        return None;
    }
    parse_i64_from(key, prefix.unicode_len())
}

/// The lifetime of a timer key: the seconds until the retry is due, and at
/// least one.
pub fn retry_ttl_secs(retry_at: i64, now: i64) -> (r: u64)
    ensures
        r as int == ttl_spec(retry_at, now),
        r >= 1,
{
    let diff: i128 = retry_at as i128 - now as i128;
    if diff < 1 {
        1
    } else {
        diff as u64
    }
}

/// A timer key reads back as the event it was made for.
pub proof fn lemma_retry_key_round_trip(event_id: i64)
    ensures
        retry_key_event(retry_key_text(event_id)) == Some(event_id),
{
    let k = retry_key_text(event_id);
    let n = retry_key_prefix().len();
    assert(k.subrange(0, n as int) =~= retry_key_prefix());
    assert(k.subrange(n as int, k.len() as int) =~= decimal_text(event_id as int));
    lemma_parse_decimal_text(event_id);
}

} // verus!
