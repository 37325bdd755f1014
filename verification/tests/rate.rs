use blinky::rate::{next_period, DEBOUNCE_MS, DEFAULT_PERIOD_MS, PERIOD_FLOOR_MS};

#[test]
fn constants_match_the_design() {
    assert_eq!(DEFAULT_PERIOD_MS, 2000);
    assert_eq!(PERIOD_FLOOR_MS, 50);
    assert_eq!(DEBOUNCE_MS, 200);
}

#[test]
fn halving_visits_the_documented_sequence() {
    let mut v = DEFAULT_PERIOD_MS;
    let mut seen = Vec::new();
    for _ in 0..6 {
        seen.push(v);
        v = next_period(v);
    }
    assert_eq!(seen, vec![2000, 1000, 500, 250, 125, 62]);
    assert_eq!(v, 2000);
}

#[test]
fn halving_is_cyclic_with_period_six() {
    let mut v = DEFAULT_PERIOD_MS;
    for _ in 0..6 {
        v = next_period(v);
    }
    assert_eq!(v, DEFAULT_PERIOD_MS);
    for _ in 0..6 {
        v = next_period(v);
    }
    assert_eq!(v, DEFAULT_PERIOD_MS);
}

#[test]
fn below_floor_resets_to_default() {
    assert_eq!(next_period(62), 2000);
    assert_eq!(next_period(99), 2000);
    assert_eq!(next_period(50), 2000);
    assert_eq!(next_period(1), 2000);
    assert_eq!(next_period(0), 2000);
}

#[test]
fn at_or_above_floor_halves() {
    assert_eq!(next_period(100), 50);
    assert_eq!(next_period(101), 50);
    assert_eq!(next_period(2000), 1000);
    assert_eq!(next_period(u32::MAX), u32::MAX / 2);
}

#[test]
fn result_never_lands_between_zero_and_floor() {
    for v in 0..4096u32 {
        let r = next_period(v);
        assert!(r >= PERIOD_FLOOR_MS);
    }
}
