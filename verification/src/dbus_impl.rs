//! Idle-time computation for the D-Bus backend.
//!
//! The backend probes a fixed, ordered catalog of desktop-session
//! screensaver services over the session bus: the freedesktop service first,
//! then the GNOME one, then the KDE one. Order encodes probe priority and is
//! preserved exactly. For each candidate the native side opens a session-bus
//! connection and calls `GetActiveTime`; a connection or call failure moves
//! on to the next candidate. The first reply wins, interpreted in the unit
//! that the answering service uses: the freedesktop service reports
//! milliseconds, the GNOME and KDE services whole seconds. When every
//! candidate has failed, the whole probe fails.

use vstd::prelude::*;
use vstd::string::StringExecFns;
use crate::duration::IdleDuration;
use crate::error::Error;

verus! {

/// How many screensaver services the catalog holds.
pub const SCREENSAVER_COUNT: usize = 3;

/// One candidate screensaver service: its bus service name, object path and
/// interface name.
pub struct ScreensaverDescriptor {
    pub service: &'static str,
    pub path: &'static str,
    pub interface: &'static str,
}

/// The bus service name of the catalog entry at `i`.
pub open spec fn spec_service(i: int) -> Seq<char> {
    if i == 0 {
        "org.freedesktop.ScreenSaver"@
    } else if i == 1 {
        "org.gnome.ScreenSaver"@
    } else {
        "org.kde.ScreenSaver"@
    }
}

/// The object path of the catalog entry at `i`.
pub open spec fn spec_path(i: int) -> Seq<char> {
    if i == 0 {
        "/org/freedesktop/ScreenSaver"@
    } else if i == 1 {
        "/org/gnome/ScreenSaver"@
    } else {
        "/org/kde/ScreenSaver"@
    }
}

/// The interface name of the catalog entry at `i`. For every catalog entry
/// it coincides with the service name.
pub open spec fn spec_interface(i: int) -> Seq<char> {
    spec_service(i)
}

/// The catalog entry at `i`, in probe-priority order: freedesktop, then
/// GNOME, then KDE.
pub fn descriptor(i: usize) -> (r: ScreensaverDescriptor)
    requires
        i < SCREENSAVER_COUNT,
    ensures
        r.service@ == spec_service(i as int),
        r.path@ == spec_path(i as int),
        r.interface@ == spec_interface(i as int),
{
    if i == 0 {
        ScreensaverDescriptor {
            service: "org.freedesktop.ScreenSaver",
            path: "/org/freedesktop/ScreenSaver",
            interface: "org.freedesktop.ScreenSaver",
        }
    } else if i == 1 {
        ScreensaverDescriptor {
            service: "org.gnome.ScreenSaver",
            path: "/org/gnome/ScreenSaver",
            interface: "org.gnome.ScreenSaver",
        }
    } else {
        ScreensaverDescriptor {
            service: "org.kde.ScreenSaver",
            path: "/org/kde/ScreenSaver",
            interface: "org.kde.ScreenSaver",
        }
    }
}

/// What probing one catalog entry came back with.
pub enum ProbeOutcome {
    /// No session-bus connection could be opened for this candidate.
    ConnectionFailed,
    /// The `GetActiveTime` call failed or the service does not exist.
    CallFailed,
    /// The service answered with its active-time value.
    Replied(u32),
}

/// What to do after one probe: try the catalog entry at the given index,
/// return the finished duration, or give up because every candidate failed.
pub enum ProbeStep {
    TryNext(usize),
    Done(IdleDuration),
    Exhausted,
}

/// The nanosecond count that a reply of `t` from the catalog entry at `i`
/// stands for: the freedesktop service (entry `0`) reports milliseconds,
/// the GNOME and KDE services whole seconds.
pub open spec fn reply_nanos(i: int, t: u32) -> int {
    if i == 0 {
        t * 1_000_000
    } else {
        t * 1_000_000_000
    }
}

/// Decide how the probe goes on after the catalog entry at `index` came
/// back with `outcome`: a reply ends the probe with the duration it stands
/// for; a failure moves on to the next entry, or exhausts the catalog when
/// none is left.
pub fn probe_step(index: usize, outcome: &ProbeOutcome) -> (r: ProbeStep)
    requires
        index < SCREENSAVER_COUNT,
    ensures
        outcome matches ProbeOutcome::Replied(t) ==> (r matches ProbeStep::Done(d) && d@
            == reply_nanos(index as int, *t)),
        !(outcome is Replied) && index + 1 < SCREENSAVER_COUNT ==> (r matches ProbeStep::TryNext(j)
            && j == index + 1),
        !(outcome is Replied) && index + 1 == SCREENSAVER_COUNT ==> r is Exhausted,
{
    match outcome {
        ProbeOutcome::Replied(t) => {
            if index == 0 {
                ProbeStep::Done(IdleDuration::from_millis(*t as u64))
            } else {
                ProbeStep::Done(IdleDuration::from_secs(*t as u64))
            }
        },
        _ => {
            if index + 1 < SCREENSAVER_COUNT {
                ProbeStep::TryNext(index + 1)
            } else {
                ProbeStep::Exhausted
            }
        },
    }
}

/// The duration that a whole probe run yields, given the outcome of each
/// catalog entry from `i` on: the first reply at or after `i`, interpreted
/// in that entry's unit, or `None` when every remaining entry failed.
pub open spec fn chain_result(s: Seq<ProbeOutcome>, i: int) -> Option<int>
    decreases s.len() - i,
{
    if i < 0 || i >= s.len() {
        None
    } else {
        match s[i] {
            ProbeOutcome::Replied(t) => Some(reply_nanos(i, t)),
            _ => chain_result(s, i + 1),
        }
    }
}

/// Resolve a whole probe run from the outcome of each catalog entry, tried
/// strictly in catalog order: the first reply wins; when every candidate
/// failed, the probe fails.
pub fn resolve_probes(outcomes: &Vec<ProbeOutcome>) -> (r: Result<IdleDuration, Error>)
    requires
        outcomes@.len() == SCREENSAVER_COUNT,
    ensures
        chain_result(outcomes@, 0) matches Some(ns) ==> (r matches Ok(d) && d@ == ns),
        chain_result(outcomes@, 0) is None ==> (r matches Err(e) && e.cause@
            == "No screensaver available"@),
{
    let mut i: usize = 0;
    while i < SCREENSAVER_COUNT
        invariant
            i <= SCREENSAVER_COUNT,
            outcomes@.len() == SCREENSAVER_COUNT,
            chain_result(outcomes@, 0) == chain_result(outcomes@, i as int),
        decreases SCREENSAVER_COUNT - i,
    {
        match probe_step(i, &outcomes[i]) {
            ProbeStep::Done(d) => {
                proof {
                    assert(outcomes@[i as int] is Replied);
                    assert(chain_result(outcomes@, i as int) matches Some(ns) && d@ == ns);
                }
                return Ok(d);
            },
            ProbeStep::TryNext(j) => {
                proof {
                    assert(!(outcomes@[i as int] is Replied));
                    assert(chain_result(outcomes@, i as int) == chain_result(outcomes@, i + 1));
                }
                i = j;
            },
            ProbeStep::Exhausted => {
                proof {
                    assert(!(outcomes@[i as int] is Replied));
                    assert(i + 1 == SCREENSAVER_COUNT);
                    assert(chain_result(outcomes@, i + 1) is None);
                    assert(chain_result(outcomes@, i as int) is None);
                }
                return Err(Error::new(String::from_str("No screensaver available")));
            },
        }
    }
    proof {
        assert(chain_result(outcomes@, i as int) is None);
    }
    Err(Error::new(String::from_str("No screensaver available")))
}

} // verus!
