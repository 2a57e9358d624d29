//! Idle-time computation for the X11 backend.
//!
//! The native side opens a connection to the X display server and queries
//! the XScreenSaver extension's info structure for the root window. The
//! extension reports the idle time in milliseconds, so no unit conversion is
//! needed; what remains is deciding between the two distinct failures (no
//! display reachable, extension query not OK) and a successful value.

use vstd::prelude::*;
use vstd::string::StringExecFns;
use crate::duration::IdleDuration;
use crate::error::Error;

verus! {

/// Turn the raw results of the XScreenSaver query into an idle duration.
///
/// `display_opened` says whether a connection to the display server could be
/// opened; when it could, `status` is the status the extension query
/// returned (`1` means OK) and `idle_ms` the reported idle time in
/// milliseconds.
pub fn idle_from_query(display_opened: bool, status: i32, idle_ms: u64) -> (r: Result<
    IdleDuration,
    Error,
>)
    ensures
        !display_opened ==> (r matches Err(e) && e.cause@ == "Failed to open display"@),
        display_opened && status == 1 ==> (r matches Ok(d) && d@ == idle_ms * 1_000_000),
        display_opened && status != 1 ==> (r matches Err(e) && e.cause@
            == "XScreenSaverQueryInfo is not OK"@),
{
    if !display_opened {
        Err(Error::new(String::from_str("Failed to open display")))
    } else if status == 1 {
        Ok(IdleDuration::from_millis(idle_ms))
    } else {
        Err(Error::new(String::from_str("XScreenSaverQueryInfo is not OK")))
    }
}

} // verus!
