use bandwidth_probe::stats::{NetworkStats, Rate, Ratio};
use bandwidth_probe::units::{format_rate, format_ratio};

#[test]
fn result_of_a_run() {
    let stats = NetworkStats::new(5120, 2560, 500_000_000);
    assert_eq!(stats.bytes_sent, 5120);
    assert_eq!(stats.bytes_received, 2560);
    assert_eq!(stats.elapsed_nanos, 500_000_000);
    assert_eq!(stats.upload_rate, Some(Rate { bytes: 5120, nanos: 500_000_000 }));
    assert_eq!(stats.download_rate, Some(Rate { bytes: 2560, nanos: 500_000_000 }));
    assert_eq!(stats.ratio, Ratio { numer: 2560, denom: 5120 });
    assert_eq!(format_rate(stats.upload_rate), "10.00 KB/s");
    assert_eq!(format_rate(stats.download_rate), "5.00 KB/s");
    assert_eq!(format_ratio(stats.ratio), "0.50");
}

#[test]
fn ratio_is_zero_where_nothing_was_sent() {
    let stats = NetworkStats::new(0, 0, 1_000);
    assert_eq!(stats.ratio, Ratio { numer: 0, denom: 1 });
    assert_eq!(format_ratio(stats.ratio), "0.00");
    let stats = NetworkStats::new(0, 77, 1_000);
    assert_eq!(stats.ratio, Ratio { numer: 0, denom: 1 });
    assert_eq!(format_ratio(stats.ratio), "0.00");
}

#[test]
fn ratio_is_zero_where_nothing_was_received() {
    let stats = NetworkStats::new(5, 0, 1_000);
    assert_eq!(stats.ratio, Ratio { numer: 0, denom: 5 });
    assert_eq!(format_ratio(stats.ratio), "0.00");
}

#[test]
fn ratio_matches_the_totals() {
    let stats = NetworkStats::new(3, 2, 1_000);
    assert_eq!(stats.ratio.numer * 3, 2 * stats.ratio.denom);
    assert_eq!(format_ratio(stats.ratio), "0.67");
    let stats = NetworkStats::new(1, 8, 1_000);
    assert_eq!(format_ratio(stats.ratio), "8.00");
}

#[test]
fn a_run_over_no_time_has_no_rates() {
    let stats = NetworkStats::new(5120, 0, 0);
    assert_eq!(stats.upload_rate, None);
    assert_eq!(stats.download_rate, None);
    assert_eq!(format_rate(stats.upload_rate), "n/a");
    assert_eq!(format_rate(stats.download_rate), "n/a");
    assert_eq!(stats.bytes_sent, 5120);
    assert_eq!(format_ratio(stats.ratio), "0.00");
}

#[test]
fn a_run_over_the_shortest_time_has_rates() {
    let stats = NetworkStats::new(5120, 0, 1);
    assert_eq!(stats.upload_rate, Some(Rate { bytes: 5120, nanos: 1 }));
    assert_eq!(stats.download_rate, Some(Rate { bytes: 0, nanos: 1 }));
    assert_eq!(format_rate(stats.upload_rate), "4768.37 GB/s");
    assert_eq!(format_rate(stats.download_rate), "0.00 B/s");
}

#[test]
fn a_rate_is_over_time_above_zero() {
    assert_eq!(Rate::new(7, 0), None);
    assert_eq!(Rate::new(0, 0), None);
    assert_eq!(Rate::new(7, 3), Some(Rate { bytes: 7, nanos: 3 }));
}
