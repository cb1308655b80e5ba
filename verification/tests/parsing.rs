use bytesize::bytelike::{skip_while, take_while, ParseError};
use bytesize::parse::{parse_bytes, rejection_message};
use bytesize::scan::{is_ascii_digit, is_whitespace, to_chars};
use bytesize::unit::unknown_unit_message;
use bytesize::{ByteSize, Failure, Unit, GB, GIB, KB, KIB, MB, MIB, PB, PIB, TB, TIB};

fn parsed(text: &str) -> u64 {
    parse_bytes(text).unwrap()
}

fn rejected(text: &str) -> (Failure, String) {
    let e = parse_bytes(text).unwrap_err();
    (e.failure, e.offending)
}

#[test]
fn literal_scenarios() {
    assert_eq!(parsed("1.5KiB"), 1536);
    assert_eq!(parsed("8P"), 8 * 1_000_000_000_000_000);
    assert!(parse_bytes("").is_err());
    assert!(parse_bytes("a124GB").is_err());
}

#[test]
fn truncation() {
    assert_eq!(parsed("1.5Ki"), 1536);
    assert_eq!(parsed("1.1Ki"), 1126);
    assert_eq!(parsed("0.0009Ki"), 0);
    assert_eq!(parsed("0.001Ki"), 1);
    assert_eq!(parsed("1.9999b"), 1);
    assert_eq!(parsed("0.9b"), 0);
    assert_eq!(parsed("1.001kb"), 1001);
    assert_eq!(parsed("1.005kb"), 1005);
    assert_eq!(parsed("1.0009kb"), 1000);
    assert_eq!(parsed("2.5 MiB"), 2_621_440);
    assert_eq!(parsed("0.1PiB"), 112_589_990_684_262);
    assert_eq!(parsed("0.33333333333333333333333333333333333333 kb"), 333);
}

#[test]
fn plain_counts() {
    assert_eq!(parsed("0"), 0);
    assert_eq!(parsed("007"), 7);
    assert_eq!(parsed("+5"), 5);
    assert_eq!(parsed("18446744073709551615"), u64::MAX);
    assert_eq!(parsed(" 500 "), 500);
    assert_eq!(parsed("\t42\n"), 42);
    assert_eq!(parsed("\u{3000}9\u{a0}"), 9);
    assert_eq!(rejected("18446744073709551616"), (Failure::UnknownUnit, String::new()));
    assert_eq!(rejected("5 5"), (Failure::UnknownUnit, String::new()));
    assert_eq!(rejected("++5"), (Failure::InvalidNumber, "++5".to_string()));
    assert_eq!(rejected("-5"), (Failure::InvalidNumber, "-5".to_string()));
    assert_eq!(rejected("+"), (Failure::InvalidNumber, "+".to_string()));
}

#[test]
fn mantissas() {
    assert_eq!(parsed(".5kb"), 500);
    assert_eq!(parsed("5.kb"), 5000);
    assert_eq!(parsed("5 . kb"), 5000);
    assert_eq!(parsed("1.2.3kb"), 1200);
    assert_eq!(parsed("5 5kb"), 5000);
    assert_eq!(parsed("0005.5000kb"), 5500);
    assert_eq!(rejected("."), (Failure::InvalidNumber, ".".to_string()));
    assert_eq!(rejected(".kb"), (Failure::InvalidNumber, ".kb".to_string()));
    assert_eq!(rejected(" 5kb"), (Failure::InvalidNumber, " 5kb".to_string()));
    assert_eq!(rejected("kb"), (Failure::InvalidNumber, "kb".to_string()));
    assert_eq!(rejected(""), (Failure::InvalidNumber, String::new()));
    assert_eq!(rejected("a124GB"), (Failure::InvalidNumber, "a124GB".to_string()));
}

#[test]
fn suffixes() {
    assert_eq!(rejected("5.0"), (Failure::UnknownUnit, String::new()));
    assert_eq!(rejected("5 xb"), (Failure::UnknownUnit, "xb".to_string()));
    assert_eq!(rejected("5kb "), (Failure::UnknownUnit, "kb ".to_string()));
    assert_eq!(rejected("5 kibi"), (Failure::UnknownUnit, "kibi".to_string()));
    assert_eq!(rejected("5eb"), (Failure::UnknownUnit, "eb".to_string()));
    assert_eq!(rejected("5 bb"), (Failure::UnknownUnit, "bb".to_string()));
    assert_eq!(rejected("5 ib"), (Failure::UnknownUnit, "ib".to_string()));
    assert_eq!(rejected("1.5 K 2"), (Failure::UnknownUnit, "K 2".to_string()));
    assert_eq!(parsed("5b"), 5);
    assert_eq!(parsed("5 B"), 5);
    assert_eq!(parsed("5\u{212a}"), 5000);
}

#[test]
fn saturation() {
    assert_eq!(parsed("18447 PB"), u64::MAX);
    assert_eq!(parsed("18446 PB"), 18_446_000_000_000_000_000);
    assert_eq!(parsed("16384 PiB"), u64::MAX);
    assert_eq!(parsed("16383.999 PiB"), 18_446_742_947_809_644_773);
    assert_eq!(parsed("99999999999999999999999999999999999999999999 b"), u64::MAX);
    assert_eq!(parsed("18446744073709551615.9b"), u64::MAX);
    assert_eq!(parsed("18446744073709551614.9b"), u64::MAX - 1);
    assert_eq!(parsed("18446744073709551616.0b"), u64::MAX);
}

#[test]
fn every_unit_in_every_form() {
    let table: [(&str, u64); 10] = [
        ("k", KB), ("m", MB), ("g", GB), ("t", TB), ("p", PB),
        ("ki", KIB), ("mi", MIB), ("gi", GIB), ("ti", TIB), ("pi", PIB),
    ];
    for (short, multiplier) in table {
        let full = format!("{}b", short);
        for form in [short.to_string(), full] {
            let chars = to_chars(&form);
            for mask in 0..(1u32 << chars.len()) {
                let varied: String = chars
                    .iter()
                    .enumerate()
                    .map(|(i, c)| if mask & (1 << i) != 0 { c.to_ascii_uppercase() } else { *c })
                    .collect();
                assert_eq!(Unit::resolve(&varied).unwrap().factor(), multiplier, "{}", varied);
                assert_eq!(parsed(&format!("3{}", varied)), 3 * multiplier);
                assert_eq!(parsed(&format!("3 {}", varied)), 3 * multiplier);
                assert_eq!(varied.parse::<Unit>().unwrap().factor(), multiplier);
            }
        }
    }
    assert_eq!(Unit::resolve("b"), Some(Unit::Byte));
    assert_eq!(Unit::resolve("B"), Some(Unit::Byte));
    assert_eq!(Unit::resolve("Gi").unwrap().factor(), GIB);
    assert_eq!(Unit::resolve("gib").unwrap().factor(), GIB);
    assert_eq!(Unit::resolve("GIB").unwrap().factor(), GIB);
    assert_eq!(u64::from(Unit::TebiByte), TIB);
    assert_eq!(Unit::Byte.factor(), 1);
}

/// The unit that the lowercase form of a suffix names in the table.
fn by_lowercase(suffix: &str) -> Option<u64> {
    match suffix.to_lowercase().as_str() {
        "b" => Some(1),
        "k" | "kb" => Some(KB),
        "m" | "mb" => Some(MB),
        "g" | "gb" => Some(GB),
        "t" | "tb" => Some(TB),
        "p" | "pb" => Some(PB),
        "ki" | "kib" => Some(KIB),
        "mi" | "mib" => Some(MIB),
        "gi" | "gib" => Some(GIB),
        "ti" | "tib" => Some(TIB),
        "pi" | "pib" => Some(PIB),
        _ => None,
    }
}

#[test]
fn suffixes_agree_with_lowercase() {
    for code in 0..=0x10FFFFu32 {
        if let Some(c) = char::from_u32(code) {
            for text in [c.to_string(), format!("{}b", c), format!("k{}", c), format!("{}ib", c), format!("mi{}", c)] {
                assert_eq!(Unit::resolve(&text).map(|u| u.factor()), by_lowercase(&text), "{:?}", text);
            }
        }
    }
    for text in ["", "kibb", "bk", "ik", "kk", "b b", "KiB ", " KiB", "k\u{130}", "\u{212a}i\u{42}"] {
        assert_eq!(Unit::resolve(text).map(|u| u.factor()), by_lowercase(text), "{:?}", text);
    }
}

#[test]
fn character_classes_agree_with_the_standard_ones() {
    for code in 0..=0x10FFFFu32 {
        if let Some(c) = char::from_u32(code) {
            assert_eq!(is_whitespace(c), c.is_whitespace(), "{:?}", c);
            assert_eq!(is_ascii_digit(c), c.is_ascii_digit(), "{:?}", c);
        }
    }
}

#[test]
fn plain_counts_agree_with_the_standard_parser() {
    for text in [
        "0", "1", "+1", "-1", "+", "", "00", "18446744073709551615", "18446744073709551616",
        "99999999999999999999", "1_000", "1e3", "0x10", "12a", "٣", "+0012", "1 2",
    ] {
        if let Ok(count) = text.parse::<u64>() {
            assert_eq!(parse_bytes(text).unwrap(), count, "{:?}", text);
        } else {
            assert!(parse_bytes(text).is_err(), "{:?}", text);
        }
    }
}

#[test]
fn messages() {
    let e = parse_bytes("a124GB").unwrap_err();
    assert_eq!(
        e.message(),
        "couldn't parse \"a124GB\" into a ByteSize, cannot parse float from empty string"
    );
    let e = parse_bytes(".kb").unwrap_err();
    assert_eq!(e.message(), "couldn't parse \".kb\" into a ByteSize, invalid float literal");
    let e = parse_bytes("5 x\"b").unwrap_err();
    assert_eq!(
        e.message(),
        "couldn't parse \"x\\\"b\" into a known SI unit, couldn't parse unit of \"x\\\"b\""
    );
    assert_eq!("12 zb".parse::<ByteSize>().unwrap_err(), parse_bytes("12 zb").unwrap_err().message());
    assert_eq!("zb".parse::<Unit>().unwrap_err(), "couldn't parse unit of \"zb\"");
    assert_eq!(Unit::parse("z\tb").unwrap_err(), "couldn't parse unit of \"z\\tb\"");
    assert_eq!(ParseError("no number".to_string()).to_string(), "no number");
    assert_eq!(
        ParseError::of(&parse_bytes("7 qb").unwrap_err()).0,
        "couldn't parse \"qb\" into a known SI unit, couldn't parse unit of \"qb\""
    );
}

#[test]
fn messages_from_the_quoted_form() {
    assert_eq!(unknown_unit_message("<zb>"), "couldn't parse unit of <zb>");
    assert_eq!(unknown_unit_message(""), "couldn't parse unit of ");
    assert_eq!(
        rejection_message(Failure::UnknownUnit, "zb", "<zb>"),
        "couldn't parse <zb> into a known SI unit, couldn't parse unit of <zb>"
    );
    assert_eq!(
        rejection_message(Failure::InvalidNumber, "a1", "<a1>"),
        "couldn't parse <a1> into a ByteSize, cannot parse float from empty string"
    );
    assert_eq!(
        rejection_message(Failure::InvalidNumber, "", "<>"),
        "couldn't parse <> into a ByteSize, cannot parse float from empty string"
    );
    assert_eq!(
        rejection_message(Failure::InvalidNumber, ".b", "<.b>"),
        "couldn't parse <.b> into a ByteSize, invalid float literal"
    );
}

#[test]
fn both_sizes_parse_alike() {
    for text in ["1.5 KiB", "500", "8P", "", "a124GB", "3 zb", "12 PiB", " 7 "] {
        let classic = ByteSize::parse(text).map(|b| b.0).map_err(|e| (e.failure, e.offending));
        let like = bytesize::bytelike::ByteSize::parse(text).map(|b| b.0).map_err(|e| (e.failure, e.offending));
        let plain = parse_bytes(text).map_err(|e| (e.failure, e.offending));
        assert_eq!(classic, plain);
        assert_eq!(like, plain);
        assert_eq!(text.parse::<bytesize::bytelike::ByteSize>().ok().map(|b| b.0), plain.ok());
    }
}

#[test]
fn taking_and_skipping() {
    let digit_or_point = |c: char| c.is_ascii_digit() || c == '.';
    let skipped = |c: char| c.is_whitespace() || c.is_ascii_digit() || c == '.';
    assert_eq!(take_while("1.5 KiB", digit_or_point), "1.5");
    assert_eq!(skip_while("1.5 KiB", skipped), "KiB");
    assert_eq!(take_while("abc", digit_or_point), "");
    assert_eq!(skip_while("abc", skipped), "abc");
    assert_eq!(take_while("123", digit_or_point), "123");
    assert_eq!(skip_while("123", skipped), "");
    assert_eq!(take_while("", digit_or_point), "");
    assert_eq!(skip_while("", skipped), "");
    assert_eq!(take_while("ééx", |c: char| c == 'é'), "éé");
    assert_eq!(skip_while("ééx1", |c: char| c == 'é'), "x1");
}
