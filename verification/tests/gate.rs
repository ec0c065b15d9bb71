use alphascout_agent::gate::{RateGate, MIN_INTERVAL_NANOS};

#[test]
fn first_request_goes_at_once() {
    let mut g = RateGate::new();
    assert_eq!(g.pass(1_000), 0);
    assert_eq!(g.last, Some(1_000));
}

#[test]
fn close_requests_are_spaced() {
    let mut g = RateGate::new();
    g.pass(1_000);
    assert_eq!(g.pass(1_000 + 100_000_000), 200_000_000);
    assert_eq!(g.last, Some(1_000 + MIN_INTERVAL_NANOS));
    // A request after the interval has passed does not wait.
    assert_eq!(g.pass(1_000 + 700_000_000), 0);
    assert_eq!(g.last, Some(1_000 + 700_000_000));
}

#[test]
fn burst_is_queued_one_interval_apart() {
    let mut g = RateGate::new();
    assert_eq!(g.pass(0), 0);
    assert_eq!(g.pass(0), MIN_INTERVAL_NANOS);
    assert_eq!(g.pass(0), 2 * MIN_INTERVAL_NANOS);
    assert_eq!(g.last, Some(2 * MIN_INTERVAL_NANOS));
}

#[test]
fn request_before_the_booked_slot_goes_an_interval_after_it() {
    let mut g = RateGate { last: Some(500_000_000) };
    assert_eq!(g.pass(100_000_000), 700_000_000);
    assert_eq!(g.last, Some(800_000_000));
}

#[test]
fn booking_room() {
    let g = RateGate { last: Some(u64::MAX) };
    assert!(!g.can_book(0));
    assert!(RateGate::new().can_book(5));
    assert!(!RateGate::new().can_book(u64::MAX));
}
