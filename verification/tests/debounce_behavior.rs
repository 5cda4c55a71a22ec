use event_core::debounce::{DebounceFilter, LevelChange};

#[test]
fn press_at_threshold_one_commits_on_first_true_sample() {
    // threshold = 1 at a 200 ms cadence: raw [false, false, true, true, true]
    // commits a single Pressed change at the first tick where raw is true.
    let mut f = DebounceFilter::new(false, 1);
    assert_eq!(f.sample(false), None);
    assert_eq!(f.sample(false), None);
    assert_eq!(f.sample(true), Some(LevelChange::Pressed));
    assert_eq!(f.sample(true), None);
    assert_eq!(f.sample(true), None);
}

#[test]
fn below_threshold_commits_nothing_at_threshold_exactly_one() {
    let mut f = DebounceFilter::new(false, 3);
    // Two matching samples after the level change: one short of the window.
    assert_eq!(f.sample(true), None);
    assert_eq!(f.sample(true), None);
    // The third reaches the window: exactly one change.
    assert_eq!(f.sample(true), Some(LevelChange::Pressed));
    // And nothing more while the level holds.
    assert_eq!(f.sample(true), None);
}

#[test]
fn release_commits_after_its_own_window() {
    let mut f = DebounceFilter::new(false, 2);
    assert_eq!(f.sample(true), None);
    assert_eq!(f.sample(true), Some(LevelChange::Pressed));
    assert_eq!(f.sample(false), None);
    assert_eq!(f.sample(false), Some(LevelChange::Released));
}

#[test]
fn bouncing_input_commits_nothing() {
    let mut f = DebounceFilter::new(false, 2);
    for i in 0..100 {
        let raw = i % 2 == 0;
        assert_eq!(f.sample(raw), None);
    }
    assert!(!f.stable);
}

#[test]
fn a_short_glitch_resets_the_run() {
    let mut f = DebounceFilter::new(false, 3);
    assert_eq!(f.sample(true), None);
    assert_eq!(f.sample(true), None);
    // The glitch back to false restarts the count...
    assert_eq!(f.sample(false), None);
    // ...so three fresh true samples are needed again.
    assert_eq!(f.sample(true), None);
    assert_eq!(f.sample(true), None);
    assert_eq!(f.sample(true), Some(LevelChange::Pressed));
}

#[test]
fn samples_matching_the_stable_state_never_commit() {
    let mut f = DebounceFilter::new(false, 2);
    for _ in 0..10 {
        assert_eq!(f.sample(false), None);
    }
}
