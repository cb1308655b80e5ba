use std::cmp::Ordering;
use std::ops::{Bound, RangeBounds};

use bytesize::bytelike::{self, ByteLikeRange};
use bytesize::order::compare_counts;
use bytesize::wire::{Mismatch, Written};
use bytesize::{gb, gib, kb, kib, mb, mib, pb, pib, tb, tib, ByteSize};

#[test]
fn unit_functions() {
    assert_eq!(kb(3u8), 3_000);
    assert_eq!(kib(3u16), 3_072);
    assert_eq!(mb(3u32), 3_000_000);
    assert_eq!(mib(3u64), 3_145_728);
    assert_eq!(gb(2u8), 2_000_000_000);
    assert_eq!(gib(2u8), 2_147_483_648);
    assert_eq!(tb(2u8), 2_000_000_000_000);
    assert_eq!(tib(2u8), 2_199_023_255_552);
    assert_eq!(pb(2u8), 2_000_000_000_000_000);
    assert_eq!(pib(2u8), 2_251_799_813_685_248);
}

#[test]
fn constructors() {
    assert_eq!(ByteSize::b(7).as_u64(), 7);
    assert_eq!(ByteSize::kb(7).as_u64(), 7_000);
    assert_eq!(ByteSize::kib(7).as_u64(), 7 << 10);
    assert_eq!(ByteSize::mb(7).as_u64(), 7_000_000);
    assert_eq!(ByteSize::mib(7).as_u64(), 7 << 20);
    assert_eq!(ByteSize::gb(7).as_u64(), 7_000_000_000);
    assert_eq!(ByteSize::gib(7).as_u64(), 7 << 30);
    assert_eq!(ByteSize::tb(7).as_u64(), 7_000_000_000_000);
    assert_eq!(ByteSize::tib(7).as_u64(), 7 << 40);
    assert_eq!(ByteSize::pb(7).as_u64(), 7_000_000_000_000_000);
    assert_eq!(ByteSize::pib(7).as_u64(), 7 << 50);
    assert_eq!(bytelike::ByteSize::b(7).as_u64(), 7);
    assert_eq!(bytelike::ByteSize::kb(7).as_u64(), 7_000);
    assert_eq!(bytelike::ByteSize::kib(7).as_u64(), 7 << 10);
    assert_eq!(bytelike::ByteSize::mb(7).as_u64(), 7_000_000);
    assert_eq!(bytelike::ByteSize::mib(7).as_u64(), 7 << 20);
    assert_eq!(bytelike::ByteSize::gb(7).as_u64(), 7_000_000_000);
    assert_eq!(bytelike::ByteSize::gib(7).as_u64(), 7 << 30);
    assert_eq!(bytelike::ByteSize::tb(7).as_u64(), 7_000_000_000_000);
    assert_eq!(bytelike::ByteSize::tib(7).as_u64(), 7 << 40);
    assert_eq!(bytelike::ByteSize::pb(7).as_u64(), 7_000_000_000_000_000);
    assert_eq!(bytelike::ByteSize::pib(7).as_u64(), 7 << 50);
    assert_eq!(bytelike::ByteSize::from(9u64), bytelike::ByteSize(9));
    assert_eq!(bytelike::ByteSize::default(), bytelike::ByteSize(0));
}

#[test]
fn integers_on_the_left() {
    let x = ByteSize::mb(1);
    assert_eq!((5u64 + x).as_u64(), 1_000_005);
    assert_eq!((5u32 + x).as_u64(), 1_000_005);
    assert_eq!((5u16 + x).as_u64(), 1_000_005);
    assert_eq!((5u8 + x).as_u64(), 1_000_005);
    assert_eq!((10u32 * x), ByteSize::mb(10));
    assert_eq!((10u64 * x), ByteSize::mb(10));
    assert_eq!((10u16 * x), ByteSize::mb(10));
    assert_eq!((10u8 * x), ByteSize::mb(10));
    assert_eq!(x * 3u8, ByteSize::mb(3));
    assert_eq!(x * 3u16, ByteSize::mb(3));
    assert_eq!(x * 3u32, ByteSize::mb(3));
    let y = bytelike::ByteSize::mb(1);
    assert_eq!((5u64 + y).as_u64(), 1_000_005);
    assert_eq!((5u32 + y).as_u64(), 1_000_005);
    assert_eq!((5u16 + y).as_u64(), 1_000_005);
    assert_eq!((5u8 + y).as_u64(), 1_000_005);
    assert_eq!(10u64 * y, bytelike::ByteSize::mb(10));
    assert_eq!(10u32 * y, bytelike::ByteSize::mb(10));
    assert_eq!(10u16 * y, bytelike::ByteSize::mb(10));
    assert_eq!(10u8 * y, bytelike::ByteSize::mb(10));
}

#[test]
fn differences_and_assignments() {
    let mut x = bytelike::ByteSize::mb(1);
    assert_eq!((x - bytelike::ByteSize::kb(100)).as_u64(), 900_000);
    assert_eq!((x - 1u8).as_u64(), 999_999);
    assert_eq!((x - 1_000_000u64).as_u64(), 0);
    x -= bytelike::ByteSize::kb(1);
    assert_eq!(x.as_u64(), 999_000);
    x -= 999u16;
    assert_eq!(x.as_u64(), 998_001);
    x += bytelike::ByteSize::b(1_999);
    assert_eq!(x.as_u64(), 1_000_000);
    x *= 3u8;
    assert_eq!(x.as_u64(), 3_000_000);
    assert_eq!((x * 4u32).as_u64(), 12_000_000);
    assert_eq!((x + x).as_u64(), 6_000_000);
}

#[test]
fn order_of_sizes() {
    assert_eq!(compare_counts(1, 2), Ordering::Less);
    assert_eq!(compare_counts(2, 2), Ordering::Equal);
    assert_eq!(compare_counts(3, 2), Ordering::Greater);
    assert_eq!(ByteSize(1).partial_cmp(&ByteSize(2)), Some(Ordering::Less));
    assert_eq!(ByteSize(1).cmp(&ByteSize(2)), Ordering::Less);
    assert_eq!(ByteSize(2).cmp(&ByteSize(2)), Ordering::Equal);
    assert!(ByteSize(3) > ByteSize(2));
    assert!(ByteSize(2) >= ByteSize(2));
    assert!(bytelike::ByteSize(3) > bytelike::ByteSize(2));
    assert!(bytelike::ByteSize(2) <= bytelike::ByteSize(2));
    assert_eq!(bytelike::ByteSize(5).max(bytelike::ByteSize(9)), bytelike::ByteSize(9));
    let mut sizes = vec![ByteSize::kib(1), ByteSize::b(5), ByteSize::kb(1)];
    sizes.sort();
    assert_eq!(sizes, vec![ByteSize(5), ByteSize(1000), ByteSize(1024)]);
}

#[test]
fn ranges() {
    let range = bytelike::ByteSize::range(5u64, 10u64);
    assert_eq!(range.start_bound(), Bound::Included(&bytelike::ByteSize(5)));
    assert_eq!(range.end_bound(), Bound::Included(&bytelike::ByteSize(10)));
    assert!(range.contains(&bytelike::ByteSize(5)));
    assert!(range.contains(&bytelike::ByteSize(10)));
    assert!(!range.contains(&bytelike::ByteSize(11)));
    let range = bytelike::ByteSize::range_start(bytelike::ByteSize::kb(1));
    assert_eq!(range.start_bound(), Bound::Included(&bytelike::ByteSize(1000)));
    assert_eq!(range.end_bound(), Bound::Included(&bytelike::ByteSize(u64::MAX)));
    let range = bytelike::ByteSize::range_stop(7u64);
    assert_eq!(range.start_bound(), Bound::Included(&bytelike::ByteSize(0)));
    assert_eq!(range.end_bound(), Bound::Included(&bytelike::ByteSize(7)));
    let range: ByteLikeRange<u64> = ByteLikeRange::new(None::<u64>, None);
    assert_eq!(range.start_bound(), Bound::Included(&0));
    assert_eq!(range.end_bound(), Bound::Included(&u64::MAX));
    let range: ByteLikeRange<u128> = ByteLikeRange::new(Some(3u64), None);
    assert_eq!(range.start_bound(), Bound::Included(&3));
    assert_eq!(range.end_bound(), Bound::Included(&(u64::MAX as u128)));
}

#[test]
fn written_and_read() {
    match bytelike::ByteSize::mib(1).written(true) {
        Written::Text(text) => assert_eq!(text, "1.0 MiB"),
        Written::Count(_) => panic!("a text was due"),
    }
    match bytelike::ByteSize::mib(1).written(false) {
        Written::Count(count) => assert_eq!(count, 1_048_576),
        Written::Text(_) => panic!("a count was due"),
    }
    assert_eq!(bytelike::ByteSize::from_signed(1_048_576).unwrap(), bytelike::ByteSize::mib(1));
    assert_eq!(bytelike::ByteSize::from_signed(0).unwrap(), bytelike::ByteSize(0));
    assert_eq!(bytelike::ByteSize::from_signed(i64::MAX).unwrap().0, 9_223_372_036_854_775_807);
    match bytelike::ByteSize::from_signed(-1) {
        Err(Mismatch::IntegerOverflow(value)) => assert_eq!(value, -1),
        _ => panic!("a negative count is no size"),
    }
    assert_eq!(bytelike::ByteSize::from_unsigned(u64::MAX).0, u64::MAX);
    assert_eq!(bytelike::ByteSize::from_text("5 B").unwrap(), bytelike::ByteSize(5));
    assert_eq!(bytelike::ByteSize::from_text("2.5 MiB").unwrap().0, 2_621_440);
    assert_eq!(bytelike::ByteSize::from_text("9223372036854775807").unwrap().0, 9_223_372_036_854_775_807);
    match bytelike::ByteSize::from_text("five") {
        Err(Mismatch::UnparsableString(text)) => assert_eq!(text, "five"),
        _ => panic!("no size was due"),
    }
}
