use ktimer::tick::{advance, elapsed, time_after_eq};

#[test]
fn elapsed_without_wraparound() {
    assert_eq!(elapsed(150, 100), 50);
    assert_eq!(elapsed(100, 100), 0);
}

#[test]
fn elapsed_across_wraparound_is_modular_distance() {
    assert_eq!(elapsed(5, u64::MAX - 4), 10);
    assert_eq!(elapsed(0, u64::MAX), 1);
    assert_eq!(elapsed(0, 1), u64::MAX);
}

#[test]
fn advance_wraps_round_the_counter() {
    assert_eq!(advance(10, 5), 15);
    assert_eq!(advance(u64::MAX, 1), 0);
    assert_eq!(advance(u64::MAX - 10, 100), 89);
}

#[test]
fn after_eq_follows_the_wrapping_convention() {
    assert!(time_after_eq(100, 100));
    assert!(time_after_eq(101, 100));
    assert!(!time_after_eq(99, 100));
    assert!(time_after_eq(5, u64::MAX));
    assert!(!time_after_eq(u64::MAX, 5));
}
