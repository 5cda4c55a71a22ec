use event_core::counter::EventCounter;

#[test]
fn new_counter_is_empty() {
    let mut c = EventCounter::new();
    assert_eq!(c.drain(), 0);
}

#[test]
fn drain_returns_net_of_increments() {
    let mut c = EventCounter::new();
    c.increment(5);
    c.increment(-2);
    c.increment(1);
    assert_eq!(c.drain(), 4);
}

#[test]
fn drain_twice_yields_total_then_zero() {
    let mut c = EventCounter::new();
    c.increment(3);
    c.increment(3);
    let first = c.drain();
    let second = c.drain();
    assert_eq!((first, second), (6, 0));
}

#[test]
fn drains_split_but_never_lose_or_double_count() {
    // The same event stream, drained at different times, always sums to
    // the same net count.
    let events: [i64; 8] = [1, 1, -1, 1, 1, 1, -1, -1];

    let mut once = EventCounter::new();
    for delta in events {
        once.increment(delta);
    }
    let total_once = once.drain();

    let mut twice = EventCounter::new();
    let mut drained_sum = 0i64;
    for (i, delta) in events.iter().enumerate() {
        twice.increment(*delta);
        if i == 2 || i == 5 {
            drained_sum += twice.drain();
        }
    }
    drained_sum += twice.drain();

    assert_eq!(total_once, 2);
    assert_eq!(drained_sum, 2);
}

#[test]
fn increment_wraps_like_a_hardware_add() {
    let mut c = EventCounter::new();
    c.increment(i64::MAX);
    c.increment(1);
    assert_eq!(c.drain(), i64::MIN);
}
