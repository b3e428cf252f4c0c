use gallery_core::timebase::{delays_of_pts, duration_ms, ms_to_pts, pts_to_ms};
use gallery_core::timefmt::format_time;

#[test]
fn clock_rendering() {
    assert_eq!(format_time(0), "00:00:00");
    assert_eq!(format_time(999), "00:00:00");
    assert_eq!(format_time(1_000), "00:00:01");
    assert_eq!(format_time(61_000), "00:01:01");
    assert_eq!(format_time(3_661_000), "01:01:01");
    assert_eq!(format_time(86_399_000), "23:59:59");
}

#[test]
fn clock_hours_grow_past_two_digits() {
    // 101 hours, 1 minute, 1 second
    assert_eq!(format_time(101 * 3_600_000 + 61_000), "101:01:01");
}

#[test]
fn stream_duration_scales_by_the_time_base() {
    // 9000 units at 1/90000 seconds per unit = 0.1 s = 100 ms
    assert_eq!(duration_ms(9_000, 1, 90_000, -1), 100);
    // rounding is half-up: 1 unit at 1/3000 s = 0.333... ms
    assert_eq!(duration_ms(1, 1, 3_000, -1), 0);
    assert_eq!(duration_ms(2, 1, 3_000, -1), 1);
}

#[test]
fn container_duration_is_the_fallback() {
    // the container reports microseconds
    assert_eq!(duration_ms(-1, 1, 1000, 2_500_000), 2_500);
    assert_eq!(duration_ms(-1, 1, 1000, -1), 0);
}

#[test]
fn pts_conversion_clamps() {
    assert_eq!(pts_to_ms(-5, 1, 1000, 10_000), 0);
    assert_eq!(pts_to_ms(9_000, 1, 90_000, 10_000), 100);
    assert_eq!(pts_to_ms(9_000_000_000, 1, 90_000, 10_000), 10_000);
}

#[test]
fn ms_converts_back_to_stream_units() {
    // 100 ms at a 1/90000 time base is 9000 units
    assert_eq!(ms_to_pts(100, 1, 90_000), 9_000);
    // truncation, as the engine expects
    assert_eq!(ms_to_pts(1, 3, 1000), 0);
}

#[test]
fn frame_delays_follow_timestamp_spacing() {
    // 90k time base, frames 3000 units apart: 33.33... ms each
    let pts = vec![0i64, 3_000, 6_000, 9_000];
    let delays = delays_of_pts(&pts, 1, 90_000);
    assert_eq!(delays.len(), 4);
    for d in &delays[0..3] {
        assert_eq!(d.num, 3_000 * 1_000);
        assert_eq!(d.den, 90_000);
    }
    // the last frame repeats its predecessor's delay
    assert_eq!(delays[3].num, 3_000 * 1_000);
    assert_eq!(delays[3].den, 90_000);
}

#[test]
fn degenerate_timestamp_spacing_falls_back_to_the_default_delay() {
    // non-increasing timestamps give no usable spacing
    let pts = vec![5_000i64, 5_000];
    let delays = delays_of_pts(&pts, 1, 90_000);
    assert_eq!(delays.len(), 2);
    for d in &delays {
        assert_eq!((d.num, d.den), (8333, 100));
    }
    // a single frame gets the default outright
    let one = delays_of_pts(&vec![0i64], 1, 90_000);
    assert_eq!((one[0].num, one[0].den), (8333, 100));
}
