use midimon::tempo::{Tempo, SEED_US_PER_TICK, TICKS_PER_BEAT};

#[test]
fn fresh_estimator_is_seeded_at_120_bpm() {
    let t = Tempo::new();
    assert_eq!(t.ticks, 0);
    assert_eq!(t.last_tick_us, 0);
    assert_eq!(t.smoothed_us_per_tick, SEED_US_PER_TICK);
    assert_eq!(t.bpm_tenths(), 1200);
}

#[test]
fn constant_interval_is_a_fixed_point() {
    let mut t = Tempo::new();
    let d = SEED_US_PER_TICK;
    for i in 1..=100u64 {
        t.on_tick(i * d);
        assert_eq!(t.smoothed_us_per_tick, d);
    }
    assert_eq!(t.bpm_tenths(), 1200);
}

#[test]
fn average_descends_to_a_faster_clock() {
    // A faster clock: 10000 us per tick (150 BPM). From the 20833 us seed the
    // average must descend strictly every tick, never passing 10000, and
    // reach it exactly within 20833 - 10000 ticks.
    let mut t = Tempo::new();
    let d = 10000u64;
    let mut prev = t.smoothed_us_per_tick;
    let mut now = 0u64;
    for _ in 0..(SEED_US_PER_TICK - d) {
        now += d;
        t.on_tick(now);
        assert!(t.smoothed_us_per_tick >= d);
        assert!(t.smoothed_us_per_tick < prev || prev == d);
        prev = t.smoothed_us_per_tick;
    }
    assert_eq!(t.smoothed_us_per_tick, d);
    assert_eq!(t.bpm_tenths(), 2500);
}

#[test]
fn average_rises_toward_a_slower_clock_without_overshooting() {
    // A slower clock: 41666 us per tick (60 BPM). The average must rise
    // monotonically and stay between the seed and the interval.
    let mut t = Tempo::new();
    let d = 41666u64;
    let mut prev = t.smoothed_us_per_tick;
    let mut now = 0u64;
    for _ in 0..2000 {
        now += d;
        t.on_tick(now);
        assert!(t.smoothed_us_per_tick >= prev);
        assert!(t.smoothed_us_per_tick <= d);
        prev = t.smoothed_us_per_tick;
    }
    // after plenty of ticks the estimate is within the integer settling band
    assert!(t.smoothed_us_per_tick >= d - 33);
}

#[test]
fn emission_once_per_beat() {
    let mut t = Tempo::new();
    let mut emitted = Vec::new();
    for i in 1..=100u64 {
        if t.on_tick(i * 20833) {
            emitted.push(t.ticks);
        }
    }
    assert_eq!(emitted, vec![24, 48, 72, 96]);
}

#[test]
fn start_resets_the_count_but_not_the_average() {
    let mut t = Tempo::new();
    for i in 1..=10u64 {
        t.on_tick(i * 10000);
    }
    let avg = t.smoothed_us_per_tick;
    let last = t.last_tick_us;
    t.on_start();
    assert_eq!(t.ticks, 0);
    assert_eq!(t.smoothed_us_per_tick, avg);
    assert_eq!(t.last_tick_us, last);
    let mut count = 0u32;
    for i in 11..=(10 + TICKS_PER_BEAT) {
        if t.on_tick(i * 10000) {
            count += 1;
        }
    }
    assert_eq!(count, 1);
    assert_eq!(t.ticks, TICKS_PER_BEAT);
}

#[test]
fn backwards_clock_counts_as_zero_interval() {
    let mut t = Tempo::new();
    t.on_tick(50000);
    let before = t.smoothed_us_per_tick;
    t.on_tick(40000);
    // interval 0: the average shrinks by the damping factor but stays positive
    assert!(t.smoothed_us_per_tick < before);
    assert!(t.smoothed_us_per_tick >= 1);
}
