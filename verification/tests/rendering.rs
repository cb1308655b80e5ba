use bytesize::bytelike;
use bytesize::render::{power_of_unit, rank, render};
use bytesize::rounding::{div_round_half_even, hold_to_53_bits, tenths_of_quotient};
use bytesize::{humanize, to_string, ByteFormatter, ByteSize, IEC, MIB, SI, Sort};

/// The rendering with the division and the rounding to one decimal place
/// done in floating point, for comparison.
fn by_division(bytes: u64, decimal: bool, separator: &str, suffix: &str) -> String {
    let unit: u64 = if decimal { 1000 } else { 1024 };
    if bytes < unit {
        format!("{}{}B", bytes, separator)
    } else {
        let mut exp: u32 = 1;
        while exp < 6 && bytes >= unit.pow(exp + 1) {
            exp += 1;
        }
        format!(
            "{:.1}{}{}{}",
            bytes as f64 / unit.pow(exp) as f64,
            separator,
            "KMGTPE".as_bytes()[exp as usize - 1] as char,
            suffix
        )
    }
}

fn agrees(bytes: u64) {
    assert_eq!(render(bytes, true, " ", "B"), by_division(bytes, true, " ", "B"), "decimal {}", bytes);
    assert_eq!(render(bytes, false, " ", "iB"), by_division(bytes, false, " ", "iB"), "binary {}", bytes);
    assert_eq!(render(bytes, false, "", ""), by_division(bytes, false, "", ""), "compact {}", bytes);
}

#[test]
fn boundary_scenarios() {
    assert_eq!(SI.humanize(215), "215 B");
    assert_eq!(IEC.humanize(1907 * MIB), "1.9 GiB");
    assert_eq!(SI.humanize(1908 * MIB), "2.0 GB");
}

#[test]
fn counts_below_the_unit_are_exact() {
    for n in 0..1000u64 {
        assert_eq!(SI.humanize(n), format!("{} B", n));
        assert_eq!(bytelike::to_string(n, false), format!("{} B", n));
    }
    for n in 0..1024u64 {
        assert_eq!(IEC.humanize(n), format!("{} B", n));
        assert_eq!(bytelike::to_string(n, true), format!("{} B", n));
        assert_eq!(Sort.humanize(n), format!("{}B", n));
    }
    assert_eq!(SI.humanize(1000), "1.0 KB");
    assert_eq!(IEC.humanize(1024), "1.0 KiB");
    assert_eq!(IEC.humanize(1023), "1023 B");
    assert_eq!(SI.humanize(999), "999 B");
}

#[test]
fn rank_never_falls() {
    let samples: [u64; 16] = [
        1000, 1024, 1025, 999_999, 1_000_000, 1_048_575, 1_048_576, 999_999_999, 1_000_000_000,
        1_073_741_823, 1_073_741_824, 999_999_999_999_999, 1_000_000_000_000_000,
        999_999_999_999_999_999, 1_152_921_504_606_846_976, u64::MAX,
    ];
    for decimal in [true, false] {
        for i in 1..samples.len() {
            assert!(rank(samples[i - 1], decimal) <= rank(samples[i], decimal));
        }
    }
}

#[test]
fn rank_is_that_of_the_largest_unit_below() {
    for decimal in [true, false] {
        let unit: u64 = if decimal { 1000 } else { 1024 };
        for k in 1..=6u32 {
            let power = unit.pow(k);
            assert_eq!(power_of_unit(decimal, k as u8), power);
            assert_eq!(rank(power, decimal), k as u8);
            assert_eq!(rank(power + 1, decimal), k as u8);
            if k > 1 {
                assert_eq!(rank(power - 1, decimal), k as u8 - 1);
            }
        }
        assert_eq!(rank(u64::MAX, decimal), 6);
    }
    assert_eq!(SI.humanize(1_000_000), "1.0 MB");
    assert_eq!(SI.humanize(999_999), "1000.0 KB");
    assert_eq!(SI.humanize(999_949), "999.9 KB");
    assert_eq!(SI.humanize(1_048_576), "1.0 MB");
    assert_eq!(IEC.humanize(1_000_001), "976.6 KiB");
    assert_eq!(IEC.humanize(1_048_575), "1024.0 KiB");
    assert_eq!(IEC.humanize(1_048_576), "1.0 MiB");
    assert_eq!(IEC.humanize(954 * MIB), "954.0 MiB");
}

#[test]
fn unit_powers() {
    assert_eq!(power_of_unit(true, 1), 1_000);
    assert_eq!(power_of_unit(true, 6), 1_000_000_000_000_000_000);
    assert_eq!(power_of_unit(false, 1), 1 << 10);
    assert_eq!(power_of_unit(false, 3), 1 << 30);
    assert_eq!(power_of_unit(false, 6), 1 << 60);
}

#[test]
fn halves_of_a_tenth() {
    // 1.25 is held exactly, so the tie goes to the even tenth.
    assert_eq!(SI.humanize(1250), "1.2 KB");
    assert_eq!(IEC.humanize(1280), "1.2 KiB");
    assert_eq!(IEC.humanize(1408), "1.4 KiB");
    // 1.05 and 1.35 are held a little above, 1.15 and 1.45 a little below.
    assert_eq!(SI.humanize(1050), "1.1 KB");
    assert_eq!(SI.humanize(1150), "1.1 KB");
    assert_eq!(SI.humanize(1350), "1.4 KB");
    assert_eq!(SI.humanize(1450), "1.4 KB");
}

#[test]
fn largest_counts() {
    assert_eq!(SI.humanize(u64::MAX), "18.4 EB");
    assert_eq!(IEC.humanize(u64::MAX), "16.0 EiB");
    assert_eq!(Sort.humanize(u64::MAX), "16.0E");
    assert_eq!(bytelike::to_string(u64::MAX, true), "16.0 EiB");
    assert_eq!(bytelike::to_string(u64::MAX, false), "18.4 EB");
    agrees(u64::MAX);
    agrees(u64::MAX - 1024);
}

#[test]
fn agrees_with_floating_point_near_the_powers() {
    for unit in [1000u64, 1024] {
        for k in 1..=6u32 {
            let power = unit.pow(k);
            for d in 0..400u64 {
                agrees(power + d);
                agrees(power - d);
            }
        }
    }
}

#[test]
fn agrees_with_floating_point_on_many_counts() {
    for n in 0..40_000u64 {
        agrees(n);
    }
    let mut state: u64 = 0x9E37_79B9_7F4A_7C15;
    for _ in 0..40_000 {
        state = state.wrapping_mul(6364136223846793005).wrapping_add(1442695040888963407);
        let bits = (state >> 58) as u32 + 1;
        let n = if bits >= 64 { state } else { state & ((1u64 << bits) - 1) };
        agrees(n);
    }
    for p in 10..64u32 {
        for d in 0..50u64 {
            agrees((1u64 << p) + d);
            agrees((1u64 << p) - d);
        }
    }
    let mut ten: u64 = 1000;
    while ten <= 1_000_000_000_000_000_000 {
        for k in [105u64, 115, 125, 135, 145, 995, 1005, 1024, 99_994, 99_995, 99_996] {
            for d in 0..3u64 {
                agrees(ten / 100 * k + d);
                agrees(ten / 100 * k - d);
            }
        }
        ten *= 10;
    }
}

#[test]
fn formatters_and_free_functions_agree() {
    for n in [0u64, 215, 1000, 1024, 301_000, 1_048_576, 1907 * MIB, u64::MAX] {
        assert_eq!(SI.humanize(n), humanize(n, true, " ", "B"));
        assert_eq!(IEC.humanize(n), humanize(n, false, " ", "iB"));
        assert_eq!(Sort.humanize(n), humanize(n, false, "", ""));
        assert_eq!(to_string(n, true), SI.humanize(n));
        assert_eq!(to_string(n, false), IEC.humanize(n));
        assert_eq!(ByteSize(n).to_string_as(true), SI.humanize(n));
        assert_eq!(ByteSize(n).to_string_as(false), IEC.humanize(n));
        assert_eq!(ByteSize(n).to_string(), SI.humanize(n));
        assert_eq!(bytelike::ByteSize(n).to_string(), bytelike::to_string(n, true));
    }
    assert_eq!(to_string(1024, true), "1.0 KB");
    assert_eq!(humanize(1000, true, " ", "B"), "1.0 KB");
    assert_eq!(humanize(1_048_576, true, " ", "B"), "1.0 MB");
    assert_eq!(bytelike::to_string(1024, false), "1.0 KB");
}

#[test]
fn rounding_to_the_even_neighbour() {
    assert_eq!(div_round_half_even(5, 2), 2);
    assert_eq!(div_round_half_even(7, 2), 4);
    assert_eq!(div_round_half_even(7, 3), 2);
    assert_eq!(div_round_half_even(8, 3), 3);
    assert_eq!(div_round_half_even(0, 3), 0);
    assert_eq!(hold_to_53_bits(9_007_199_254_740_992), 9_007_199_254_740_992);
    assert_eq!(hold_to_53_bits(9_007_199_254_740_993), 9_007_199_254_740_992);
    assert_eq!(hold_to_53_bits(9_007_199_254_740_995), 9_007_199_254_740_996);
    assert_eq!(hold_to_53_bits(u64::MAX), 1u128 << 64);
    assert_eq!(hold_to_53_bits(12345), 12345);
    assert_eq!(tenths_of_quotient(1150, 1000), 11);
    assert_eq!(tenths_of_quotient(1250, 1000), 12);
    assert_eq!(tenths_of_quotient(1999634432, 1 << 30), 19);
}
