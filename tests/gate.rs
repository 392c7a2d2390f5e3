use rs_lib_bot::gate::{RateGate, MIN_INTERVAL_MS};

#[test]
fn first_fetch_goes_at_once() {
    let mut gate = RateGate::new();
    assert_eq!(0, gate.next_allowed());
    assert_eq!(5_000, gate.acquire(5_000));
    assert_eq!(6_000, gate.next_allowed());
}

#[test]
fn back_to_back_fetches_are_a_second_apart() {
    let mut gate = RateGate::new();
    let first = gate.acquire(10_000);
    let second = gate.acquire(10_000);
    let third = gate.acquire(10_001);
    assert_eq!(10_000, first);
    assert!(second >= first + 1_000);
    assert_eq!(11_000, second);
    assert_eq!(12_000, third);
    assert_eq!(1_000, MIN_INTERVAL_MS);
}

#[test]
fn late_fetch_is_not_held() {
    let mut gate = RateGate::new();
    assert_eq!(1_000, gate.acquire(1_000));
    assert_eq!(9_000, gate.acquire(9_000));
    assert_eq!(10_000, gate.next_allowed());
}

#[test]
fn gate_saturates_at_end_of_clock() {
    let mut gate = RateGate::new();
    assert_eq!(u64::MAX - 10, gate.acquire(u64::MAX - 10));
    assert_eq!(u64::MAX, gate.next_allowed());
    assert_eq!(u64::MAX, gate.acquire(0));
}
