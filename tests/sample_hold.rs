use audiofxrs::sample_hold::HoldCounter;

#[test]
fn no_reduction_takes_every_sample() {
    let mut c = HoldCounter::new();
    for _ in 0..10 {
        assert!(c.tick(1));
    }
}

#[test]
fn reduction_by_three_takes_every_third_sample() {
    let mut c = HoldCounter::new();
    let taken: Vec<bool> = (0..9).map(|_| c.tick(3)).collect();
    assert_eq!(
        taken,
        vec![false, false, true, false, false, true, false, false, true]
    );
}

#[test]
fn zero_skip_always_takes() {
    let mut c = HoldCounter::new();
    assert!(c.tick(0));
    assert!(c.tick(0));
}

#[test]
fn reset_restarts_the_count() {
    let mut c = HoldCounter::new();
    assert!(!c.tick(2));
    c.reset();
    assert!(!c.tick(2));
    assert!(c.tick(2));
}
