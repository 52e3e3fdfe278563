use koe::monitor::{
    macos_supports_fn_globe_monitor, parse_decimal_u32, supports_fn_globe_shortcut,
    version_size_known, MonitorRegistry, RegistrationPlan, RetryStep, MONITOR_RETRY_INTERVAL_MS,
    REQUIRED_MAJOR_VERSION,
};

fn supported(version: &[u8]) -> bool {
    macos_supports_fn_globe_monitor(0, &version.to_vec(), version.len())
}

#[test]
fn monitor_constants() {
    assert_eq!(REQUIRED_MAJOR_VERSION, 15);
    assert_eq!(MONITOR_RETRY_INTERVAL_MS, 2000);
}

#[test]
fn version_fifteen_and_later_is_supported() {
    assert!(supported(b"15.0\0"));
    assert!(supported(b"15.3.1\0"));
    assert!(supported(b"15"));
    assert!(supported(b"26.1"));
    assert!(supported(b"15."));
}

#[test]
fn earlier_versions_are_not_supported() {
    assert!(!supported(b"14.7.1\0"));
    assert!(!supported(b"9.15"));
    assert!(!supported(b"0\0"));
    assert!(!supported(b"1.15.15"));
}

#[test]
fn malformed_versions_are_not_supported() {
    assert!(!supported(b""));
    assert!(!supported(b"\0"));
    assert!(!supported(b".15"));
    assert!(!supported(b"abc"));
    assert!(!supported(b"15a.0"));
    assert!(!supported(b" 15.0"));
    assert!(!supported(b"-15.0"));
    assert!(!supported(b"+"));
    assert!(!supported(b"15\0\0"));
}

#[test]
fn plus_sign_and_leading_zeros_are_read() {
    assert!(supported(b"+15.0"));
    assert!(supported(b"0015.2"));
    assert!(!supported(b"++15"));
    assert!(!supported(b"+014"));
}

#[test]
fn major_version_must_fit_thirty_two_bits() {
    assert!(supported(b"4294967295.0"));
    assert!(!supported(b"4294967296.0"));
    assert!(!supported(b"99999999999999999999999"));
    assert!(supported(b"000000000000000000000000015"));
}

#[test]
fn version_must_be_utf8_throughout() {
    assert!(!supported(b"15.\xff"));
    assert!(!supported(b"15.0\xc3"));
    assert!(supported("15.0-β".as_bytes()));
}

#[test]
fn only_the_written_bytes_count() {
    let buffer = b"15.0\0junk".to_vec();
    assert!(macos_supports_fn_globe_monitor(0, &buffer, 5));
    assert!(macos_supports_fn_globe_monitor(0, &buffer, 4));
    assert!(macos_supports_fn_globe_monitor(0, &buffer, 2));
    assert!(!macos_supports_fn_globe_monitor(0, &buffer, 1));
    assert!(!macos_supports_fn_globe_monitor(0, &buffer, 0));
    assert!(macos_supports_fn_globe_monitor(0, &buffer, 100));
    let cut = b"14\05".to_vec();
    assert!(!macos_supports_fn_globe_monitor(0, &cut, 3));
}

#[test]
fn failed_read_is_not_supported() {
    let buffer = b"15.0\0".to_vec();
    assert!(!macos_supports_fn_globe_monitor(-1, &buffer, 5));
    assert!(!macos_supports_fn_globe_monitor(1, &buffer, 5));
}

#[test]
fn size_is_known_after_a_successful_call_with_a_size() {
    assert!(version_size_known(0, 5));
    assert!(!version_size_known(0, 0));
    assert!(!version_size_known(-1, 5));
}

#[test]
fn parse_decimal_reads_what_the_standard_library_reads() {
    let texts = [
        "", "0", "7", "15", "+15", "-15", "+", "-", "++1", "1+", "1 ", " 1", "00", "4294967295",
        "4294967296", "42949672950", "12a", "a12", "１５", "1_000",
    ];
    for text in texts {
        assert_eq!(parse_decimal_u32(text.as_bytes()), text.parse::<u32>().ok());
    }
}

#[test]
fn parse_decimal_exact_values() {
    assert_eq!(parse_decimal_u32(b"15"), Some(15));
    assert_eq!(parse_decimal_u32(b"+007"), Some(7));
    assert_eq!(parse_decimal_u32(b"4294967295"), Some(u32::MAX));
    assert_eq!(parse_decimal_u32(b"4294967296"), None);
    assert_eq!(parse_decimal_u32(b""), None);
}

#[test]
fn registry_starts_empty_and_plans_both() {
    let registry = MonitorRegistry::new();
    assert!(!registry.is_complete());
    assert_eq!(registry.plan(), RegistrationPlan { observer: true, interceptor: true });
}

#[test]
fn registry_keeps_what_was_registered() {
    let mut registry = MonitorRegistry::new();
    registry.record(true, false);
    assert_eq!(registry, MonitorRegistry { global_registered: true, local_registered: false });
    assert_eq!(registry.plan(), RegistrationPlan { observer: false, interceptor: true });
    registry.record(false, false);
    assert!(registry.global_registered);
    assert!(!registry.is_complete());
    registry.record(false, true);
    assert!(registry.is_complete());
    assert_eq!(registry.plan(), RegistrationPlan { observer: false, interceptor: false });
    registry.record(false, false);
    assert!(registry.is_complete());
}

#[test]
fn retry_loop_goes_on_until_both_are_registered() {
    let mut registry = MonitorRegistry::new();
    assert_eq!(registry.retry_step(false), RetryStep::AttemptAfter { millis: 2000 });
    registry.record(false, true);
    assert_eq!(registry.retry_step(false), RetryStep::AttemptAfter { millis: 2000 });
    registry.record(true, false);
    assert_eq!(registry.retry_step(false), RetryStep::Stop);
}

#[test]
fn retry_loop_ends_when_the_handover_fails() {
    let registry = MonitorRegistry::new();
    assert_eq!(registry.retry_step(true), RetryStep::Stop);
}

#[test]
fn shortcut_needs_the_system_and_both_monitors() {
    let both = MonitorRegistry { global_registered: true, local_registered: true };
    let one = MonitorRegistry { global_registered: true, local_registered: false };
    assert!(supports_fn_globe_shortcut(true, &both));
    assert!(!supports_fn_globe_shortcut(false, &both));
    assert!(!supports_fn_globe_shortcut(true, &one));
    assert!(!supports_fn_globe_shortcut(true, &MonitorRegistry::new()));
}
