use cosmic_reader::size::format_size;

/// The text by way of double-precision arithmetic.
fn by_doubles(bytes: u64) -> String {
    let units = ["B", "KB", "MB", "GB", "TB"];
    let mut size = bytes as f64;
    let mut unit = 0;
    while size >= 1024.0 && unit < units.len() - 1 {
        size /= 1024.0;
        unit += 1;
    }
    if unit == 0 {
        format!("{} {}", bytes, units[0])
    } else {
        format!("{:.1} {}", size, units[unit])
    }
}

#[test]
fn bytes_are_shown_whole() {
    assert_eq!(format_size(0), "0 B");
    assert_eq!(format_size(7), "7 B");
    assert_eq!(format_size(1023), "1023 B");
}

#[test]
fn larger_sizes_have_one_decimal() {
    assert_eq!(format_size(1024), "1.0 KB");
    assert_eq!(format_size(1536), "1.5 KB");
    assert_eq!(format_size(1024 * 1024), "1.0 MB");
    assert_eq!(format_size(5 * 1024 * 1024 * 1024), "5.0 GB");
    assert_eq!(format_size(3 * 1024 * 1024 * 1024 * 1024 / 2), "1.5 TB");
}

#[test]
fn a_size_just_below_a_unit_rounds_up_in_its_own() {
    assert_eq!(format_size(1024 * 1024 - 1), "1024.0 KB");
}

#[test]
fn halves_go_to_the_even_tenth() {
    assert_eq!(format_size(1024 + 256), "1.2 KB");
    assert_eq!(format_size(1024 + 768), "1.8 KB");
}

#[test]
fn terabytes_are_the_largest_unit() {
    assert_eq!(format_size(u64::MAX), "16777216.0 TB");
    assert_eq!(format_size(1 << 60), "1048576.0 TB");
}

#[test]
fn sizes_agree_with_doubles() {
    for shift in 0..64 {
        let base: u64 = 1 << shift;
        for delta in 0..300u64 {
            for size in [base.wrapping_add(delta), base.wrapping_sub(delta), base.wrapping_mul(delta)] {
                assert_eq!(format_size(size), by_doubles(size));
            }
        }
    }
}

#[test]
fn sizes_beyond_exact_doubles_agree_with_doubles() {
    // Odd multiples of an eighth of a terabyte are ties; their neighbours round to them.
    for step in 0..2000u64 {
        let tie = (1u64 << 53) + step * (1u64 << 37);
        for near in [tie - 1025, tie - 1024, tie - 1, tie, tie + 1, tie + 2, tie + 1024, tie + 1025] {
            assert_eq!(format_size(near), by_doubles(near));
            let large = near + (1u64 << 63);
            assert_eq!(format_size(large), by_doubles(large));
        }
    }
}

#[test]
fn many_scattered_sizes_agree_with_doubles() {
    let mut x: u64 = 0x9e37_79b9_7f4a_7c15;
    for i in 0..20000u32 {
        x ^= x << 13;
        x ^= x >> 7;
        x ^= x << 17;
        let size = x >> (i % 64);
        assert_eq!(format_size(size), by_doubles(size));
    }
}
