use audiofxrs::delay_line::DelayLine;

#[test]
fn test_delay_line() {
    let mut delay: DelayLine<f32> = DelayLine::new(4);

    delay.write(1.0);
    delay.write(2.0);
    delay.write(3.0);

    assert_eq!(delay.read(2), 1.0);
    assert_eq!(delay.read(1), 2.0);
    assert_eq!(delay.read(0), 3.0);
}

#[test]
fn new_line_reads_silence() {
    let delay: DelayLine<f32> = DelayLine::new(3);
    assert_eq!(delay.max_delay_samples(), 3);
    for d in 0..5 {
        assert_eq!(delay.read(d), 0.0);
    }
}

#[test]
fn read_beyond_capacity_reads_oldest() {
    let mut delay: DelayLine<i32> = DelayLine::new(3);
    for v in 1..=5 {
        delay.write(v);
    }
    // The line holds 3, 4, 5; the oldest is 3.
    assert_eq!(delay.read(2), 3);
    assert_eq!(delay.read(3), 3);
    assert_eq!(delay.read(100), 3);
}

#[test]
fn writes_wrap_around_the_buffer() {
    let mut delay: DelayLine<i32> = DelayLine::new(4);
    let values = [10, 20, 30, 40, 50, 60, 70];
    for &v in values.iter() {
        delay.write(v);
    }
    let n = values.len() - 1;
    for d in 0..4 {
        assert_eq!(delay.read(d), values[n - d]);
    }
}

#[test]
fn clear_silences_every_delay() {
    let mut delay: DelayLine<f32> = DelayLine::new(5);
    for i in 0..8 {
        delay.write(0.25 * i as f32);
    }
    delay.clear();
    for d in 0..6 {
        assert_eq!(delay.read(d), 0.0);
    }
    delay.write(0.5);
    assert_eq!(delay.read(0), 0.5);
    assert_eq!(delay.read(1), 0.0);
}

#[test]
fn single_sample_line_holds_last_write() {
    let mut delay: DelayLine<f32> = DelayLine::new(1);
    delay.write(0.3);
    delay.write(-0.7);
    assert_eq!(delay.read(0), -0.7);
    assert_eq!(delay.read(7), -0.7);
}

#[test]
fn cleared_line_matches_a_new_one() {
    let mut used: DelayLine<i64> = DelayLine::new(3);
    for v in [4, -2, 9, 11] {
        used.write(v);
    }
    used.clear();
    let mut fresh: DelayLine<i64> = DelayLine::new(3);
    for v in [7, 8] {
        used.write(v);
        fresh.write(v);
    }
    for d in 0..5 {
        assert_eq!(used.read(d), fresh.read(d));
    }
    assert_eq!(used.read(2), 0);
}
