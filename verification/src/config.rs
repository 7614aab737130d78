//! Configuration values supplied by the caller: the overall wait budget, the
//! inter-attempt interval, and the rule for an empty URL list.

use vstd::prelude::*;

verus! {

/// Default overall wait budget in seconds; `0` disables the timeout check.
pub const DEFAULT_WAIT_SECONDS: u64 = 300;

/// Default pause between attempts, in milliseconds.
pub const DEFAULT_INTERVAL_MILLIS: u64 = 250;

/// The pause actually slept between attempts: the configured interval,
/// floored to one millisecond so that the loop never spins without pausing.
pub fn effective_sleep_millis(interval_millis: u64) -> (r: u64)
    ensures
        r == (if interval_millis < 1 { 1u64 } else { interval_millis }),
        r >= 1,
{
    if interval_millis < 1 {
        1
    } else {
        interval_millis
    }
}

/// Whether a URL list of `url_count` entries may be polled: an empty list is
/// an error unless the caller explicitly allows it.
pub fn url_list_acceptable(allow_empty: bool, url_count: usize) -> (r: bool)
    ensures
        r == (allow_empty || url_count > 0),
{
    allow_empty || url_count > 0
}

} // verus!
