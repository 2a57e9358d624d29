//! Idle-time computation for the Windows backend.
//!
//! The native side reads the current system tick count and the tick count of
//! the last recorded input event, both in milliseconds. The idle duration is
//! their difference. A last-input timestamp in the future (possible near
//! tick-count wraparound or under clock anomalies) would make the difference
//! negative, so it is reported as a failure rather than wrapped or clamped.

use vstd::prelude::*;
use vstd::string::StringExecFns;
use crate::duration::IdleDuration;
use crate::error::Error;

verus! {

/// Turn the raw results of the Windows last-input query into an idle
/// duration.
///
/// `query_ok` says whether the native last-input query succeeded; `now` is
/// the current tick count and `last_input` the tick count at the most recent
/// input event, both in milliseconds.
pub fn idle_from_ticks(query_ok: bool, now: u32, last_input: u32) -> (r: Result<
    IdleDuration,
    Error,
>)
    ensures
        !query_ok ==> (r matches Err(e) && e.cause@ == "GetLastInputInfo failed"@),
        query_ok && last_input <= now ==> (r matches Ok(d) && d@ == (now - last_input)
            * 1_000_000),
        query_ok && last_input > now ==> (r matches Err(e) && e.cause@
            == "last input time is after the current tick count"@),
{
    if !query_ok {
        Err(Error::new(String::from_str("GetLastInputInfo failed")))
    } else if last_input <= now {
        Ok(IdleDuration::from_millis((now - last_input) as u64))
    } else {
        Err(Error::new(String::from_str("last input time is after the current tick count")))
    }
}

} // verus!
