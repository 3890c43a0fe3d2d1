use bandwidth_probe::stats::{Rate, Ratio};
use bandwidth_probe::units::{format_rate, format_ratio};

fn float_rate_text(bytes_per_sec: f64) -> String {
    if bytes_per_sec < 1024.0 {
        format!("{:.2} B/s", bytes_per_sec)
    } else if bytes_per_sec < 1024.0 * 1024.0 {
        format!("{:.2} KB/s", bytes_per_sec / 1024.0)
    } else if bytes_per_sec < 1024.0 * 1024.0 * 1024.0 {
        format!("{:.2} MB/s", bytes_per_sec / (1024.0 * 1024.0))
    } else {
        format!("{:.2} GB/s", bytes_per_sec / (1024.0 * 1024.0 * 1024.0))
    }
}

fn per_second(bytes: usize, nanos: u64) -> String {
    format_rate(Rate::new(bytes, nanos))
}

#[test]
fn rate_in_bytes_per_second() {
    assert_eq!(per_second(0, 1_000_000_000), "0.00 B/s");
    assert_eq!(per_second(1, 1_000_000_000), "1.00 B/s");
    assert_eq!(per_second(1023, 1_000_000_000), "1023.00 B/s");
    assert_eq!(per_second(1, 3_000_000_000), "0.33 B/s");
    assert_eq!(per_second(2, 3_000_000_000), "0.67 B/s");
}

#[test]
fn rate_in_each_larger_unit() {
    assert_eq!(per_second(1024, 1_000_000_000), "1.00 KB/s");
    assert_eq!(per_second(1024 * 1024, 1_000_000_000), "1.00 MB/s");
    assert_eq!(per_second(1024 * 1024 * 1024, 1_000_000_000), "1.00 GB/s");
    assert_eq!(per_second(5120, 500_000_000), "10.00 KB/s");
    assert_eq!(per_second(2560, 500_000_000), "5.00 KB/s");
    assert_eq!(per_second(1536, 1_000_000), "1.46 MB/s");
}

#[test]
fn rate_just_below_a_unit_stays_in_the_smaller_one() {
    assert_eq!(per_second(1024 * 1024 - 1, 1_000_000_000), "1024.00 KB/s");
    assert_eq!(per_second(1024 * 1024 * 1024 - 1, 1_000_000_000), "1024.00 MB/s");
}

#[test]
fn rate_over_the_shortest_time() {
    assert_eq!(per_second(1, 1), "953.67 MB/s");
    assert_eq!(per_second(2, 1), "1.86 GB/s");
    assert_eq!(per_second(512_000, 1), "476837.16 GB/s");
}

#[test]
fn rate_over_no_time_is_not_a_number_of_any_kind() {
    assert_eq!(per_second(5120, 0), "n/a");
    assert_eq!(per_second(0, 0), "n/a");
    assert_eq!(format_rate(None), "n/a");
    assert_eq!(format_rate(Some(Rate { bytes: 5120, nanos: 0 })), "n/a");
    assert_eq!(format_rate(Some(Rate { bytes: 0, nanos: 0 })), "n/a");
}

#[test]
fn rate_of_the_largest_values() {
    assert_eq!(per_second(usize::MAX, u64::MAX), "953.67 MB/s");
    assert_eq!(per_second(u32::MAX as usize, 1), "3999999999.07 GB/s");
    assert_eq!(per_second(1, u64::MAX), "0.00 B/s");
}

#[test]
fn rate_agrees_with_floating_point_on_whole_seconds() {
    let byte_counts: [usize; 8] = [0, 1, 1000, 1024, 5120, 102_400, 512_000, 1 << 40];
    let seconds: [u64; 5] = [1, 2, 4, 8, 64];
    for bytes in byte_counts {
        for secs in seconds {
            let expected = float_rate_text(bytes as f64 / secs as f64);
            assert_eq!(per_second(bytes, secs * 1_000_000_000), expected);
        }
    }
}

#[test]
fn ratio_with_two_decimals() {
    assert_eq!(format_ratio(Ratio { numer: 2560, denom: 5120 }), "0.50");
    assert_eq!(format_ratio(Ratio { numer: 0, denom: 1 }), "0.00");
    assert_eq!(format_ratio(Ratio { numer: 1, denom: 3 }), "0.33");
    assert_eq!(format_ratio(Ratio { numer: 2, denom: 3 }), "0.67");
    assert_eq!(format_ratio(Ratio { numer: 5, denom: 1 }), "5.00");
    assert_eq!(format_ratio(Ratio { numer: 26_224_640, denom: 1024 }), "25610.00");
    assert_eq!(format_ratio(Ratio { numer: 409, denom: 10_240 }), "0.04");
    assert_eq!(format_ratio(Ratio { numer: 999, denom: 1000 }), "1.00");
}

#[test]
fn ratio_tie_goes_to_the_even_hundredth() {
    assert_eq!(format_ratio(Ratio { numer: 1, denom: 8 }), "0.12");
    assert_eq!(format_ratio(Ratio { numer: 3, denom: 8 }), "0.38");
    assert_eq!(format_ratio(Ratio { numer: 1, denom: 8 }), format!("{:.2}", 1.0_f64 / 8.0));
    assert_eq!(format_ratio(Ratio { numer: 3, denom: 8 }), format!("{:.2}", 3.0_f64 / 8.0));
}

#[test]
fn ratio_over_zero() {
    assert_eq!(format_ratio(Ratio { numer: 7, denom: 0 }), "inf");
    assert_eq!(format_ratio(Ratio { numer: 0, denom: 0 }), "NaN");
    assert_eq!(format_ratio(Ratio { numer: 7, denom: 0 }), format!("{:.2}", 7.0_f64 / 0.0));
    assert_eq!(format_ratio(Ratio { numer: 0, denom: 0 }), format!("{:.2}", 0.0_f64 / 0.0));
}

#[test]
fn ratio_of_the_largest_values() {
    assert_eq!(format_ratio(Ratio { numer: usize::MAX, denom: usize::MAX }), "1.00");
    assert_eq!(
        format_ratio(Ratio { numer: usize::MAX, denom: 1 }),
        format!("{}.00", usize::MAX)
    );
}
