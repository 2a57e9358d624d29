use user_idle_time::Error;
use user_idle_time::dbus_impl::{descriptor, probe_step, resolve_probes, ProbeOutcome, ProbeStep};
use user_idle_time::macos_impl::{idle_from_probe, HidProbe, HidProperty};
use user_idle_time::windows_impl::idle_from_ticks;
use user_idle_time::x11_impl::idle_from_query;

#[test]
fn error_keeps_its_cause() {
    let e = Error::new(String::from("no bus"));
    assert_eq!(e.message(), "no bus");
    assert_eq!(e.cause, "no bus");
}

#[test]
fn dbus_catalog_order_is_fixed() {
    let first = descriptor(0);
    assert_eq!(first.service, "org.freedesktop.ScreenSaver");
    assert_eq!(first.path, "/org/freedesktop/ScreenSaver");
    assert_eq!(first.interface, "org.freedesktop.ScreenSaver");
    let second = descriptor(1);
    assert_eq!(second.service, "org.gnome.ScreenSaver");
    assert_eq!(second.path, "/org/gnome/ScreenSaver");
    assert_eq!(second.interface, "org.gnome.ScreenSaver");
    let third = descriptor(2);
    assert_eq!(third.service, "org.kde.ScreenSaver");
    assert_eq!(third.path, "/org/kde/ScreenSaver");
    assert_eq!(third.interface, "org.kde.ScreenSaver");
}

#[test]
fn dbus_freedesktop_reply_is_milliseconds() {
    let outcomes = vec![
        ProbeOutcome::Replied(1500),
        ProbeOutcome::ConnectionFailed,
        ProbeOutcome::ConnectionFailed,
    ];
    let d = resolve_probes(&outcomes).unwrap();
    assert_eq!(d.as_millis(), 1500);
    assert_eq!(d.as_secs(), 1);
}

#[test]
fn dbus_kde_reply_is_whole_seconds() {
    let outcomes = vec![
        ProbeOutcome::ConnectionFailed,
        ProbeOutcome::CallFailed,
        ProbeOutcome::Replied(7),
    ];
    let d = resolve_probes(&outcomes).unwrap();
    assert_eq!(d.as_secs(), 7);
    assert_eq!(d.as_millis(), 7000);
}

#[test]
fn dbus_gnome_reply_is_whole_seconds() {
    let outcomes = vec![
        ProbeOutcome::CallFailed,
        ProbeOutcome::Replied(42),
        ProbeOutcome::CallFailed,
    ];
    let d = resolve_probes(&outcomes).unwrap();
    assert_eq!(d.as_secs(), 42);
}

#[test]
fn dbus_first_reply_in_catalog_order_wins() {
    let outcomes = vec![
        ProbeOutcome::Replied(1000),
        ProbeOutcome::Replied(5),
        ProbeOutcome::Replied(9),
    ];
    let d = resolve_probes(&outcomes).unwrap();
    assert_eq!(d.as_secs(), 1);
    assert_eq!(d.as_millis(), 1000);
}

#[test]
fn dbus_exhausted_catalog_fails() {
    let outcomes = vec![
        ProbeOutcome::ConnectionFailed,
        ProbeOutcome::CallFailed,
        ProbeOutcome::ConnectionFailed,
    ];
    let e = resolve_probes(&outcomes).unwrap_err();
    assert_eq!(e.message(), "No screensaver available");
}

#[test]
fn dbus_probe_steps_walk_the_catalog_in_order() {
    assert!(matches!(probe_step(0, &ProbeOutcome::CallFailed), ProbeStep::TryNext(1)));
    assert!(matches!(probe_step(1, &ProbeOutcome::ConnectionFailed), ProbeStep::TryNext(2)));
    assert!(matches!(probe_step(2, &ProbeOutcome::CallFailed), ProbeStep::Exhausted));
    match probe_step(0, &ProbeOutcome::Replied(3)) {
        ProbeStep::Done(d) => assert_eq!(d.as_millis(), 3),
        _ => panic!("a reply must finish the probe"),
    }
}

#[test]
fn windows_idle_is_tick_difference() {
    let d = idle_from_ticks(true, 5000, 2000).unwrap();
    assert_eq!(d.as_millis(), 3000);
}

#[test]
fn windows_successful_result_is_non_negative() {
    let d = idle_from_ticks(true, 2000, 2000).unwrap();
    assert_eq!(d.as_nanos(), 0);
    let d = idle_from_ticks(true, u32::MAX, 0).unwrap();
    assert_eq!(d.as_millis(), u32::MAX as u128);
}

#[test]
fn windows_future_last_input_fails() {
    let e = idle_from_ticks(true, 100, 200).unwrap_err();
    assert_eq!(e.message(), "last input time is after the current tick count");
}

#[test]
fn windows_failed_query_fails() {
    let e = idle_from_ticks(false, 500, 100).unwrap_err();
    assert_eq!(e.message(), "GetLastInputInfo failed");
}

#[test]
fn macos_typed_number_is_nanoseconds() {
    let d = idle_from_probe(&HidProbe::Value(HidProperty::Number(5_000_000_000))).unwrap();
    assert_eq!(d.as_secs(), 5);
    assert_eq!(d.subsec_nanos(), 0);
}

#[test]
fn macos_byte_buffer_is_little_endian_nanoseconds() {
    let bytes = 1_234_567_890_i64.to_le_bytes().to_vec();
    let d = idle_from_probe(&HidProbe::Value(HidProperty::Bytes(bytes))).unwrap();
    assert_eq!(d.as_nanos(), 1_234_567_890);
}

#[test]
fn macos_negative_number_fails() {
    let e = idle_from_probe(&HidProbe::Value(HidProperty::Number(-1))).unwrap_err();
    assert_eq!(e.message(), "negative idle time reported");
}

#[test]
fn macos_negative_byte_buffer_fails() {
    let bytes = vec![0xFF; 8];
    let e = idle_from_probe(&HidProbe::Value(HidProperty::Bytes(bytes))).unwrap_err();
    assert_eq!(e.message(), "negative idle time reported");
}

#[test]
fn macos_missing_or_undecodable_value_is_zero_idle() {
    let d = idle_from_probe(&HidProbe::NoValue).unwrap();
    assert_eq!(d.as_nanos(), 0);
    let d = idle_from_probe(&HidProbe::Value(HidProperty::Other)).unwrap();
    assert_eq!(d.as_nanos(), 0);
    let d = idle_from_probe(&HidProbe::Value(HidProperty::Bytes(vec![1, 2, 3]))).unwrap();
    assert_eq!(d.as_nanos(), 0);
}

#[test]
fn macos_port_and_lookup_failures() {
    let e = idle_from_probe(&HidProbe::PortUnavailable).unwrap_err();
    assert_eq!(e.message(), "Unable to open mach port");
    let e = idle_from_probe(&HidProbe::LookupFailed).unwrap_err();
    assert_eq!(e.message(), "Unable to lookup IOHIDSystem");
}

#[test]
fn x11_reply_is_milliseconds() {
    let d = idle_from_query(true, 1, 250).unwrap();
    assert_eq!(d.as_millis(), 250);
}

#[test]
fn x11_no_display_fails_with_connection_cause() {
    let e = idle_from_query(false, 0, 0).unwrap_err();
    assert_eq!(e.message(), "Failed to open display");
}

#[test]
fn x11_non_ok_status_fails() {
    let e = idle_from_query(true, 0, 123).unwrap_err();
    assert_eq!(e.message(), "XScreenSaverQueryInfo is not OK");
}
