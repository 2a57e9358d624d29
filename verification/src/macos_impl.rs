//! Idle-time computation for the macOS backend.
//!
//! The native side opens the kernel's default communication port, looks up
//! the HID system service and reads its registry property dictionary. The
//! idle-time entry of that dictionary is a signed 64-bit nanosecond count
//! that the framework may hand over either as eight raw little-endian bytes
//! or as a typed number; this module decodes both representations. A missing
//! service or a missing or undecodable property yields a zero idle time, as
//! the platform itself behaves; a value that would be negative is reported
//! as a failure rather than wrapped into a huge positive duration.

use vstd::prelude::*;
use vstd::string::StringExecFns;
use crate::duration::IdleDuration;
use crate::error::Error;

verus! {

/// The representation in which the registry handed over the idle-time
/// property: eight raw bytes, a typed 64-bit number, or some other type.
pub enum HidProperty {
    Bytes(Vec<u8>),
    Number(i64),
    Other,
}

/// What the native probe of the HID service registry came back with.
pub enum HidProbe {
    /// The kernel's default communication port could not be opened.
    PortUnavailable,
    /// The lookup call for the HID system service itself failed.
    LookupFailed,
    /// The lookup succeeded but no service, no property dictionary or no
    /// idle-time entry was found.
    NoValue,
    /// The idle-time property, in whichever representation it had.
    Value(HidProperty),
}

/// The unsigned 64-bit value that eight little-endian bytes encode.
pub open spec fn u64_of_le_bytes(b: Seq<u8>) -> int
    recommends
        b.len() == 8,
{
    b[0] + 256 * b[1] + 65536 * b[2] + 16777216 * b[3] + 4294967296 * b[4] + 1099511627776 * b[5]
        + 281474976710656 * b[6] + 72057594037927936 * b[7]
}

/// The signed 64-bit value that eight little-endian bytes encode, in two's
/// complement.
pub open spec fn i64_of_le_bytes(b: Seq<u8>) -> int
    recommends
        b.len() == 8,
{
    if u64_of_le_bytes(b) >= 0x8000_0000_0000_0000 {
        u64_of_le_bytes(b) - 0x1_0000_0000_0000_0000
    } else {
        u64_of_le_bytes(b)
    }
}

/// Read an unsigned 64-bit value from eight little-endian bytes.
fn u64_from_le_bytes(b: &Vec<u8>) -> (r: u64)
    requires
        b@.len() == 8,
    ensures
        r == u64_of_le_bytes(b@),
{
    b[0] as u64 + 256 * (b[1] as u64 + 256 * (b[2] as u64 + 256 * (b[3] as u64 + 256 * (b[4]
        as u64 + 256 * (b[5] as u64 + 256 * (b[6] as u64 + 256 * (b[7] as u64)))))))
}

/// The nanosecond count that a probe result stands for, when it stands for
/// one at all: the decoded idle-time value, or zero when no value or an
/// undecodable one was found. `None` means the probe was one of the two
/// hard failures.
pub open spec fn probe_nanos(probe: HidProbe) -> Option<int> {
    match probe {
        HidProbe::PortUnavailable => None,
        HidProbe::LookupFailed => None,
        HidProbe::NoValue => Some(0),
        HidProbe::Value(p) => match p {
            HidProperty::Bytes(b) => if b@.len() == 8 {
                Some(i64_of_le_bytes(b@))
            } else {
                Some(0)
            },
            HidProperty::Number(n) => Some(n as int),
            HidProperty::Other => Some(0),
        },
    }
}

/// Turn the result of the native HID registry probe into an idle duration.
pub fn idle_from_probe(probe: &HidProbe) -> (r: Result<IdleDuration, Error>)
    ensures
        probe is PortUnavailable ==> (r matches Err(e) && e.cause@
            == "Unable to open mach port"@),
        probe is LookupFailed ==> (r matches Err(e) && e.cause@
            == "Unable to lookup IOHIDSystem"@),
        probe_nanos(*probe) matches Some(ns) ==> if ns >= 0 {
            r matches Ok(d) && d@ == ns
        } else {
            r matches Err(e) && e.cause@ == "negative idle time reported"@
        },
{
    match probe {
        HidProbe::PortUnavailable => Err(Error::new(String::from_str("Unable to open mach port"))),
        HidProbe::LookupFailed => Err(
            Error::new(String::from_str("Unable to lookup IOHIDSystem")),
        ),
        HidProbe::NoValue => Ok(IdleDuration::from_nanos(0)),
        HidProbe::Value(p) => match p {
            HidProperty::Bytes(b) => {
                if b.len() == 8 {
                    let u: u64 = u64_from_le_bytes(b);
                    if u >= 0x8000_0000_0000_0000 {
                        Err(Error::new(String::from_str("negative idle time reported")))
                    } else {
                        Ok(IdleDuration::from_nanos(u))
                    }
                } else {
                    Ok(IdleDuration::from_nanos(0))
                }
            },
            HidProperty::Number(n) => {
                if *n < 0 {
                    Err(Error::new(String::from_str("negative idle time reported")))
                } else {
                    Ok(IdleDuration::from_nanos(*n as u64))
                }
            },
            HidProperty::Other => Ok(IdleDuration::from_nanos(0)),
        },
    }
}

} // verus!
