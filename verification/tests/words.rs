use ethcontract::U256;
use scm_ico::clock::{Instant, Span};
use scm_ico::phase::SalePhase;
use scm_ico::word::Word256;

fn word(value: U256) -> Word256 {
    Word256::from_limbs(value.0)
}

#[test]
fn limbs_go_both_ways() {
    let limbs = [1u64, 2, 3, 4];
    assert_eq!(Word256::from_limbs(limbs).to_limbs(), limbs);
    assert_eq!(Word256::from_u64(77).to_limbs(), [77, 0, 0, 0]);
    assert_eq!(Word256::zero().to_limbs(), [0, 0, 0, 0]);
    assert_eq!(word(U256::from(77)), Word256::from_u64(77));
}

#[test]
fn zero_is_zero() {
    assert!(Word256::zero().is_zero());
    assert!(!Word256::from_u64(1).is_zero());
    assert!(!Word256::from_limbs([0, 0, 0, 1]).is_zero());
}

#[test]
fn order_is_numeric() {
    let values = [
        U256::zero(),
        U256::one(),
        U256::from(u64::MAX),
        U256::from(u64::MAX) + 1,
        U256::exp10(30),
        U256::MAX - 1,
        U256::MAX,
    ];
    for a in values {
        for b in values {
            assert_eq!(word(a).lt(&word(b)), a < b, "{} < {}", a, b);
        }
    }
    assert!(Word256::from_limbs([9, 0, 0, 0]).lt(&Word256::from_limbs([0, 1, 0, 0])));
    assert!(!Word256::from_limbs([0, 1, 0, 0]).lt(&Word256::from_limbs([9, 0, 0, 0])));
}

#[test]
fn small_words_are_u64() {
    assert_eq!(Word256::from_u64(u64::MAX).to_u64(), Some(u64::MAX));
    assert_eq!(Word256::zero().to_u64(), Some(0));
    assert_eq!(Word256::from_limbs([5, 1, 0, 0]).to_u64(), None);
    assert_eq!(Word256::from_limbs([5, 0, 0, 1]).to_u64(), None);
    assert_eq!(Word256::from_u64(123).as_u64(), 123);
}

#[test]
fn phases_decode() {
    assert_eq!(SalePhase::from_code(0), SalePhase::Ongoing);
    assert_eq!(SalePhase::from_code(1), SalePhase::Closed);
    assert_eq!(SalePhase::from_code(2), SalePhase::Finished);
    assert_eq!(SalePhase::from_code(3), SalePhase::Unknown(3));
    assert_eq!(SalePhase::from_code(255), SalePhase::Unknown(255));
    for code in 0..=255u8 {
        assert_eq!(SalePhase::from_code(code).code(), code);
    }
    assert!(SalePhase::Ongoing.is_ongoing());
    assert!(!SalePhase::Closed.is_ongoing());
    assert!(!SalePhase::Unknown(9).is_ongoing());
}

#[test]
fn phases_are_shown() {
    assert_eq!(SalePhase::Ongoing.to_string(), "Ongoing");
    assert_eq!(SalePhase::Closed.to_string(), "Closed");
    assert_eq!(SalePhase::Finished.to_string(), "Finished");
    assert_eq!(SalePhase::Unknown(7).to_string(), "Unknown (7)");
    assert_eq!(SalePhase::Unknown(255).to_string(), "Unknown (255)");
}

#[test]
fn instants_carry_whole_seconds() {
    let t = Instant::new(10, 1_500_000_000).unwrap();
    assert_eq!(t.secs(), 11);
    assert_eq!(t, Instant::new(11, 500_000_000).unwrap());
    assert!(Instant::new(i64::MAX, 999_999_999).is_some());
    assert!(Instant::new(i64::MAX, 1_000_000_000).is_none());
    assert!(Instant::new(i64::MIN, 0).is_some());
}

#[test]
fn timestamps_become_instants() {
    let t = Instant::from_timestamp(&Word256::from_u64(1_700_000_000)).unwrap();
    assert_eq!(t, Instant::new(1_700_000_000, 0).unwrap());
    assert!(Instant::from_timestamp(&Word256::from_u64(i64::MAX as u64)).is_some());
    assert!(Instant::from_timestamp(&Word256::from_u64(i64::MAX as u64 + 1)).is_none());
    assert!(Instant::from_timestamp(&Word256::from_limbs([0, 1, 0, 0])).is_none());
}

#[test]
fn instants_are_ordered() {
    let a = Instant::new(5, 10).unwrap();
    let b = Instant::new(5, 11).unwrap();
    let c = Instant::new(6, 0).unwrap();
    let d = Instant::new(-1, 999_999_999).unwrap();
    assert!(a.is_before(&b));
    assert!(b.is_before(&c));
    assert!(d.is_before(&a));
    assert!(!a.is_before(&a));
    assert!(!c.is_before(&a));
}

#[test]
fn remaining_is_the_difference_or_nothing() {
    let now = Instant::new(100, 250_000_000).unwrap();
    let later = Instant::new(103, 100_000_000).unwrap();
    let span = later.remaining(&now);
    assert_eq!(span.secs(), 2);
    assert_eq!(span.subsec_nanos(), 850_000_000);
    assert!(!span.is_zero());

    assert!(now.remaining(&later).is_zero());
    assert!(now.remaining(&now).is_zero());
    assert_eq!(now.remaining(&later), Span::zero());

    let far = Instant::new(i64::MAX, 999_999_999).unwrap();
    let early = Instant::new(i64::MIN, 0).unwrap();
    let span = far.remaining(&early);
    assert_eq!(span.secs(), u64::MAX);
    assert_eq!(span.subsec_nanos(), 999_999_999);
    assert!(early.remaining(&far).is_zero());

    let one = Instant::new(0, 1).unwrap().remaining(&Instant::new(0, 0).unwrap());
    assert_eq!((one.secs(), one.subsec_nanos()), (0, 1));
    let borrow = Instant::new(2, 0).unwrap().remaining(&Instant::new(1, 999_999_999).unwrap());
    assert_eq!((borrow.secs(), borrow.subsec_nanos()), (0, 1));
}
