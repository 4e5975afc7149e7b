use vstd::prelude::*;

verus! {

/// `chrono::Utc::now` read as whole seconds since the Unix epoch, which is
/// what `DateTime::timestamp` gives. Nothing is claimed of the value: every
/// call may see another time.
#[verifier::external_body]
pub(crate) fn unix_timestamp() -> i64 {
    chrono::Utc::now().timestamp()
}

/// A signed count of seconds as a point in time of the library: seconds
/// since the Unix epoch, never negative. A time before the epoch counts as
/// the epoch, one beyond the machine's range as the last second of it.
pub open spec fn clamped_seconds(seconds: int) -> int {
    if seconds < 0 {
        0
    } else if seconds > usize::MAX {
        usize::MAX as int
    } else {
        seconds
    }
}

/// Brings a signed count of seconds into the range of the library's points
/// in time.
pub fn seconds_since_epoch(seconds: i64) -> (at: usize)
    ensures
        at == clamped_seconds(seconds as int),
{
    if seconds < 0 {
        0
    } else if seconds as u64 > usize::MAX as u64 {
        usize::MAX
    } else {
        seconds as usize
    }
}

/// The time of the call, in seconds since the Unix epoch: what the clock
/// reads, brought into range. Which reading that is cannot be said.
pub fn current_time() -> (at: usize)
    ensures
        exists|reading: i64| at == #[trigger] clamped_seconds(reading as int),
{
    seconds_since_epoch(unix_timestamp())
}

/// The point in time `hours` hours after `now`, or `None` where that cannot
/// be counted in 64 bits. A negative `hours` gives a time before `now`.
pub open spec fn hours_after(now: int, hours: int) -> Option<int> {
    if i64::MIN <= hours * 3600 <= i64::MAX && i64::MIN <= now + hours * 3600 <= i64::MAX {
        Some(clamped_seconds(now + hours * 3600))
    } else {
        None
    }
}

/// The point in time at which a credential issued at `now` (signed seconds
/// since the epoch) with a lifetime of `hours` hours runs out.
pub fn expiration_after(now: i64, hours: i64) -> (at: Option<usize>)
    ensures
        match at {
            Some(at) => hours_after(now as int, hours as int) == Some(at as int),
            None => hours_after(now as int, hours as int) is None,
        },
{
    match hours.checked_mul(3600) {
        Some(lifetime) => match now.checked_add(lifetime) {
            Some(end) => Some(seconds_since_epoch(end)),
            None => None,
        },
        None => None,
    }
}

} // verus!
