use rust_pom::time_format::{format_time, TimeFormat};

#[test]
fn format_verbose_3661() {
    assert_eq!(format_time(3661, TimeFormat::Verbose), "1h 1m 1s");
}

#[test]
fn format_compact_65() {
    assert_eq!(format_time(65, TimeFormat::Compact), "01:05");
}

#[test]
fn format_compact_5() {
    assert_eq!(format_time(5, TimeFormat::Compact), "5 seconds");
}

#[test]
fn format_verbose_zero_is_0s() {
    assert_eq!(format_time(0, TimeFormat::Verbose), "0s");
}

#[test]
fn format_compact_zero() {
    assert_eq!(format_time(0, TimeFormat::Compact), "0 seconds");
}

#[test]
fn format_compact_with_hours() {
    assert_eq!(format_time(3661, TimeFormat::Compact), "01:01:01");
    assert_eq!(format_time(3600, TimeFormat::Compact), "01:00:00");
    assert_eq!(format_time(86399, TimeFormat::Compact), "23:59:59");
}

#[test]
fn format_compact_hours_beyond_two_digits() {
    assert_eq!(format_time(360000, TimeFormat::Compact), "100:00:00");
}

#[test]
fn format_compact_minute_boundary() {
    assert_eq!(format_time(59, TimeFormat::Compact), "59 seconds");
    assert_eq!(format_time(60, TimeFormat::Compact), "01:00");
}

#[test]
fn format_verbose_omits_zero_components() {
    assert_eq!(format_time(3600, TimeFormat::Verbose), "1h");
    assert_eq!(format_time(3601, TimeFormat::Verbose), "1h 1s");
    assert_eq!(format_time(3660, TimeFormat::Verbose), "1h 1m");
    assert_eq!(format_time(119, TimeFormat::Verbose), "1m 59s");
    assert_eq!(format_time(45, TimeFormat::Verbose), "45s");
}

#[test]
fn format_total_and_never_empty() {
    let samples = [0u64, 1, 59, 60, 61, 3599, 3600, 3661, 86400, u64::MAX];
    for &s in samples.iter() {
        assert!(!format_time(s, TimeFormat::Verbose).is_empty());
        assert!(!format_time(s, TimeFormat::Compact).is_empty());
    }
}
