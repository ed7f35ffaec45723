//! Frequency and timing encodings: exact values, round trips, saturation
//! and monotonicity on concrete inputs.

use sx_radio::configure::{
    freq_from_raw_6x, freq_from_raw_8x, freq_raw_6x, freq_raw_8x, time_bytes_6x, time_bytes_8x,
};
use sx_radio::shared::{be16, split_addr};

#[test]
fn freq_raw_6x_exact() {
    // 915 MHz at a 32 MHz / 2^25 step: 915e6 * 2^25 / 32e6 is exact.
    assert_eq!(freq_raw_6x(915_000_000), 959_447_040);
    assert_eq!(freq_raw_6x(915_000_000), 0x3930_0000);
    assert_eq!(freq_raw_6x(0), 0);
}

#[test]
fn freq_raw_8x_exact() {
    assert_eq!(freq_raw_8x(2_400_000_000), 12_098_954);
    assert_eq!(freq_raw_8x(0), 0);
}

#[test]
fn freq_round_trip_6x_within_one_lsb() {
    for hz in [
        150_000_000u32,
        433_000_000,
        868_000_000,
        902_300_000,
        915_000_000,
        960_000_000,
    ] {
        let raw = freq_raw_6x(hz);
        let back = freq_raw_6x(freq_from_raw_6x(raw));
        let diff = if back > raw { back - raw } else { raw - back };
        assert!(diff <= 1, "raw {} re-encoded as {}", raw, back);
    }
}

#[test]
fn freq_round_trip_8x_exact() {
    for hz in [2_400_000_000u32, 2_450_000_000, 2_500_000_000] {
        let raw = freq_raw_8x(hz);
        let back = freq_raw_8x(freq_from_raw_8x(raw));
        assert_eq!(back, raw);
    }
}

#[test]
fn time_bytes_zero() {
    assert_eq!(time_bytes_6x(0), (0, 0, 0));
    assert_eq!(time_bytes_8x(0), (0, 0, 0));
}

#[test]
fn time_bytes_exact_values() {
    // 64 counts of 15.625 µs make one millisecond.
    assert_eq!(time_bytes_6x(1), (0, 0, 64));
    assert_eq!(time_bytes_6x(1000), (0x00, 0xfa, 0x00));
    assert_eq!(time_bytes_8x(1), (0, 0, 64));
    assert_eq!(time_bytes_8x(100), (0, 0x19, 0x00));
}

#[test]
fn time_bytes_saturate_at_field_width() {
    // The all-ones count doubles as the device's continuous-mode sentinel.
    assert_eq!(time_bytes_6x(u32::MAX), (0xff, 0xff, 0xff));
    assert_eq!(time_bytes_6x(262_144), (0xff, 0xff, 0xff));
    assert_eq!(time_bytes_8x(1024), (0, 0xff, 0xff));
    assert_eq!(time_bytes_8x(u32::MAX), (0, 0xff, 0xff));
}

#[test]
fn time_count_monotonic_spot_checks() {
    let inputs = [0u32, 1, 2, 1000, 262_143, 262_144, 300_000, u32::MAX];
    let mut prev = time_bytes_6x(0);
    for ms in inputs {
        let cur = time_bytes_6x(ms);
        let prev_count =
            ((prev.0 as u32) << 16) | ((prev.1 as u32) << 8) | prev.2 as u32;
        let cur_count = ((cur.0 as u32) << 16) | ((cur.1 as u32) << 8) | cur.2 as u32;
        assert!(prev_count <= cur_count);
        prev = cur;
    }
}

#[test]
fn addr_and_word_helpers() {
    assert_eq!(split_addr(0x0889), (0x08, 0x89));
    assert_eq!(split_addr(0x0000), (0, 0));
    assert_eq!(split_addr(0xffff), (0xff, 0xff));
    assert_eq!(be16(0x12, 0x34), 0x1234);
    assert_eq!(be16(0, 0), 0);
    assert_eq!(be16(0xff, 0xff), 0xffff);
}
