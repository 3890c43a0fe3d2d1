use bandwidth_probe::units::format_bytes;

fn float_text(bytes: usize) -> String {
    let value = bytes as f64;
    if bytes < 1024 {
        format!("{} B", bytes)
    } else if bytes < 1024 * 1024 {
        format!("{:.2} KB", value / 1024.0)
    } else if bytes < 1024 * 1024 * 1024 {
        format!("{:.2} MB", value / (1024.0 * 1024.0))
    } else {
        format!("{:.2} GB", value / (1024.0 * 1024.0 * 1024.0))
    }
}

#[test]
fn zero_bytes() {
    assert_eq!(format_bytes(0), "0 B");
}

#[test]
fn last_count_in_bytes() {
    assert_eq!(format_bytes(1023), "1023 B");
}

#[test]
fn one_kilobyte() {
    assert_eq!(format_bytes(1024), "1.00 KB");
}

#[test]
fn one_megabyte() {
    assert_eq!(format_bytes(1048576), "1.00 MB");
}

#[test]
fn one_gigabyte() {
    assert_eq!(format_bytes(1073741824), "1.00 GB");
}

#[test]
fn last_count_below_each_unit() {
    assert_eq!(format_bytes(1024 * 1024 - 1), "1024.00 KB");
    assert_eq!(format_bytes(1024 * 1024 * 1024 - 1), "1024.00 MB");
}

#[test]
fn single_digits_and_tens() {
    assert_eq!(format_bytes(7), "7 B");
    assert_eq!(format_bytes(10), "10 B");
    assert_eq!(format_bytes(100), "100 B");
    assert_eq!(format_bytes(999), "999 B");
}

#[test]
fn hundredths_keep_their_leading_zero() {
    assert_eq!(format_bytes(1024 + 52), "1.05 KB");
    assert_eq!(format_bytes(10 * 1024), "10.00 KB");
    assert_eq!(format_bytes(100 * 1024), "100.00 KB");
    assert_eq!(format_bytes(1536), "1.50 KB");
}

#[test]
fn a_tie_goes_to_the_even_hundredth() {
    assert_eq!(format_bytes(1152), "1.12 KB");
    assert_eq!(format_bytes(1408), "1.38 KB");
    assert_eq!(format_bytes(1664), "1.62 KB");
    assert_eq!(format_bytes(1920), "1.88 KB");
}

#[test]
fn rounding_carries_into_the_whole_part() {
    assert_eq!(format_bytes(2047), "2.00 KB");
    assert_eq!(format_bytes(26_224_640), "25.01 MB");
}

#[test]
fn agrees_with_floating_point_on_small_counts() {
    let mut bytes: usize = 0;
    while bytes < 70_000 {
        assert_eq!(format_bytes(bytes), float_text(bytes));
        bytes += 1;
    }
}

#[test]
fn agrees_with_floating_point_on_a_sweep() {
    let mut bytes: usize = 1;
    let mut step: usize = 1;
    while bytes < usize::MAX / 3 {
        assert_eq!(format_bytes(bytes), float_text(bytes));
        assert_eq!(format_bytes(bytes - 1), float_text(bytes - 1));
        assert_eq!(format_bytes(bytes + 1), float_text(bytes + 1));
        bytes += step;
        step = step * 3 / 2 + 1;
    }
}

#[test]
fn agrees_with_floating_point_near_hundredth_boundaries_of_huge_counts() {
    let gib: u128 = 1 << 30;
    let mut k: u128 = 1 << 62;
    let mut checked = 0;
    while k < (1 << 64) - (1 << 40) {
        // the hundredth boundary nearest to k, and the counts around it
        let hundredths = k * 200 / gib;
        let boundary = ((hundredths | 1) * gib / 200) as usize;
        let mut offset: usize = 0;
        while offset < 3000 {
            let below = boundary - offset;
            let above = boundary + offset;
            assert_eq!(format_bytes(below), float_text(below));
            assert_eq!(format_bytes(above), float_text(above));
            offset += 1;
            checked += 2;
        }
        k += (1 << 58) + 12_345_678_901;
    }
    assert!(checked > 10_000);
}

#[test]
fn the_largest_count() {
    assert_eq!(format_bytes(usize::MAX), float_text(usize::MAX));
    assert_eq!(format_bytes(usize::MAX), "17179869184.00 GB");
}
