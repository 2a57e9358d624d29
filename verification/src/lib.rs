//! Report how long a user has been idle: the time since the last keyboard or
//! mouse input, as each desktop platform exposes it.
//!
//! The platform backends differ in how they encode elapsed idle time (seconds,
//! milliseconds, nanoseconds, tick differences). This crate holds the logic
//! that normalizes those encodings into one duration type, together with the
//! per-backend decision rules: the ordered D-Bus fallback chain, the X11
//! status check, the Windows tick-count difference, and the macOS HID
//! property decoding. The native calls themselves live outside the library
//! and hand their raw results to these functions.

pub mod dbus_impl;
pub mod duration;
pub mod error;
pub mod macos_impl;
pub mod windows_impl;
pub mod x11_impl;

pub use duration::IdleDuration;
pub use duration::lemma_duration_non_negative;
pub use error::Error;
