use std::cmp::Ordering;
use std::collections::HashSet;

use u9::U9;

#[test]
fn equality_is_equality_of_magnitudes() {
    let a = U9::from_u16_masked(7);
    let b = U9::try_from_u16(7).unwrap();
    let c = U9::from(8u8);
    assert!(a == b);
    assert!(a != c);
    assert!(U9::from_u16_masked(519) == a);
}

#[test]
fn order_is_order_of_magnitudes() {
    let small = U9::from(3u8);
    let large = U9::from_u16_masked(500);
    assert!(small < large);
    assert!(small <= large);
    assert!(large > small);
    assert!(large >= small);
    assert!(small <= small);
    assert!(!(small < small));
    assert!(matches!(small.partial_cmp(&large), Some(Ordering::Less)));
    assert!(matches!(large.partial_cmp(&small), Some(Ordering::Greater)));
    assert!(matches!(small.partial_cmp(&small), Some(Ordering::Equal)));
}

#[test]
fn partial_and_total_order_agree() {
    let words = [0u16, 1, 2, 255, 256, 510, 511];
    for a in words {
        for b in words {
            let x = U9::try_from_u16(a).unwrap();
            let y = U9::try_from_u16(b).unwrap();
            assert!(x.partial_cmp(&y) == Some(x.cmp(&y)));
            assert!(x.cmp(&y) == a.cmp(&b));
            assert_eq!(x < y, a < b);
            assert_eq!(x == y, a == b);
        }
    }
}

#[test]
fn sorting_follows_the_magnitudes() {
    let mut values = vec![
        U9::from_u16_masked(400),
        U9::from_u16_masked(3),
        U9::from_u16_masked(511),
        U9::from_u16_masked(0),
    ];
    values.sort();
    let words: Vec<u16> = values.into_iter().map(u16::from).collect();
    assert_eq!(words, vec![0, 3, 400, 511]);
}

#[test]
fn values_copy_and_hash() {
    let a = U9::from_u16_masked(12);
    let b = a;
    assert!(a == b);
    let mut seen = HashSet::new();
    assert!(seen.insert(a));
    assert!(!seen.insert(U9::from(12u8)));
    assert!(seen.insert(U9::from(13u8)));
    assert_eq!(seen.len(), 2);
}
