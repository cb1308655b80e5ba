use bytesize::bytelike;
use bytesize::parse::parse_bytes;
use bytesize::render::{power_of_unit, rank};
use bytesize::{ByteFormatter, GIB, IEC, KB, KIB, MIB, SI};

fn unit_of(n: u64, decimal: bool) -> u64 {
    let unit = if decimal { 1000 } else { 1024 };
    if n < unit {
        1
    } else {
        power_of_unit(decimal, rank(n, decimal))
    }
}

fn back(n: u64, decimal: bool) -> u64 {
    let text = if decimal { SI.humanize(n) } else { IEC.humanize(n) };
    let capital = bytelike::to_string(n, !decimal);
    let read = parse_bytes(&text).unwrap();
    assert_eq!(parse_bytes(&capital).unwrap(), read);
    read
}

fn near(n: u64) {
    let read = back(n, true) as i128;
    let unit = unit_of(n, true) as i128;
    assert!(20 * (read - n as i128).abs() <= unit, "decimal {}", n);
    let read = back(n, false) as i128;
    let unit = unit_of(n, false) as i128;
    assert!(20 * (read - n as i128) <= unit, "binary {}", n);
    assert!(20 * (n as i128 - read) <= unit + 18, "binary {}", n);
}

#[test]
fn within_a_twentieth_of_the_unit() {
    for n in 0..30_000u64 {
        near(n);
    }
    let mut state: u64 = 0x1234_5678_9ABC_DEF0;
    for _ in 0..30_000 {
        state = state.wrapping_mul(6364136223846793005).wrapping_add(1442695040888963407);
        let bits = (state >> 58) as u32 % 53 + 1;
        near(state & ((1u64 << bits) - 1));
    }
    near((1 << 53) - 1);
    near(1907 * MIB);
    near(1908 * MIB);
}

#[test]
fn within_a_twentieth_of_the_unit_where_held_exactly() {
    // Multiples of 2048 have at most 53 binary digits before their last place
    // as long as they are below 2^64.
    let mut state: u64 = 0x0F1E_2D3C_4B5A_6978;
    for _ in 0..30_000 {
        state = state.wrapping_mul(6364136223846793005).wrapping_add(1442695040888963407);
        let n = (state >> 4) / 2048 * 2048;
        if n < 1_000_000_000_000_000_000 {
            near(n);
        }
    }
    near(1 << 53);
    near((1 << 53) + 2);
    near(16_250_000_000_000_000);
    near(999_999_999_999_997_952);
}

#[test]
fn multiples_of_the_rendered_unit_come_back() {
    for k in 1..1000u64 {
        assert_eq!(unit_of(k * KB, true), KB);
        assert_eq!(back(k * KB, true), k * KB);
    }
    for k in 1..1024u64 {
        assert_eq!(unit_of(k * MIB, false), MIB);
        assert_eq!(back(k * MIB, false), k * MIB);
    }
    assert_eq!(unit_of(1024 * MIB, false), GIB);
    assert_eq!(IEC.humanize(954 * MIB), "954.0 MiB");
    assert_eq!(back(3 * GIB, false), 3 * GIB);
    assert_eq!(back(976 * KIB, false), 976 * KIB);
    assert_eq!(back(1023 * KIB, false), 1023 * KIB);
    assert_eq!(back(215, true), 215);
    assert_eq!(back(1023, false), 1023);
}

#[test]
fn what_the_rounding_loses() {
    // One decimal place: 1907 MiB come back as 1.9 GiB.
    assert_eq!(back(1907 * MIB, false), 2_040_109_465);
    // Half of a tenth, and the byte that the cutting drops.
    assert_eq!(IEC.humanize(1280), "1.2 KiB");
    assert_eq!(back(1280, false), 1228);
    assert_eq!(back(32_000, false), 31_948);
    // A mebibyte in decimal units is a little more than a megabyte.
    assert_eq!(SI.humanize(MIB), "1.0 MB");
    assert_eq!(back(MIB, true), 1_000_000);
}

#[test]
fn beyond_the_law() {
    // From 2^53 on a count is no longer held exactly before it is divided.
    assert_eq!(SI.humanize(16_250_000_000_000_001), "16.2 PB");
    assert_eq!(back(16_250_000_000_000_001, true), 16_200_000_000_000_000);
    // The sixth rank has a letter, but no suffix of the table names it.
    assert_eq!(SI.humanize(1_500_000_000_000_000_000), "1.5 EB");
    assert!(parse_bytes("1.5 EB").is_err());
    assert!(parse_bytes("1.3 EiB").is_err());
}
