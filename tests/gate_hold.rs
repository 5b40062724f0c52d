use audiofxrs::gate_hold::GateHold;

#[test]
fn new_gate_is_closed() {
    let g = GateHold::new();
    assert!(!g.is_open());
}

#[test]
fn quiet_signal_keeps_gate_closed() {
    let mut g = GateHold::new();
    for _ in 0..100 {
        g.step(false, 441);
        assert!(!g.is_open());
    }
}

#[test]
fn gate_stays_open_through_hold_time() {
    let mut g = GateHold::new();
    g.step(true, 4);
    assert!(g.is_open());
    g.step(false, 4);
    assert!(g.is_open());
    g.step(false, 4);
    assert!(g.is_open());
    g.step(false, 4);
    assert!(g.is_open());
    g.step(false, 4);
    assert!(!g.is_open());
}

#[test]
fn loud_sample_restarts_hold_time() {
    let mut g = GateHold::new();
    g.step(true, 3);
    g.step(false, 3);
    g.step(false, 3);
    g.step(true, 3);
    g.step(false, 3);
    g.step(false, 3);
    assert!(g.is_open());
    g.step(false, 3);
    assert!(!g.is_open());
}

#[test]
fn one_sample_hold_closes_at_first_quiet_sample() {
    let mut g = GateHold::new();
    g.step(true, 1);
    assert!(g.is_open());
    g.step(false, 1);
    assert!(!g.is_open());
}
