use uart_echo::heartbeat::{Beat, Heartbeat, CADENCE_MS};

#[test]
fn heartbeat_starts_at_zero_with_indicator_off() {
    let h = Heartbeat::new();
    assert_eq!(h.count(), 0);
    assert!(!h.is_lit());
}

#[test]
fn cadence_is_half_a_second() {
    assert_eq!(CADENCE_MS, 500);
}

#[test]
fn first_ticks() {
    let mut h = Heartbeat::new();
    assert_eq!(h.tick(), Beat { lit: true, report: None, pause_ms: 500 });
    assert_eq!(h.count(), 1);
    assert!(h.is_lit());
    assert_eq!(h.tick(), Beat { lit: false, report: Some(2), pause_ms: 500 });
    assert_eq!(h.count(), 2);
    assert!(!h.is_lit());
    assert_eq!(h.tick(), Beat { lit: true, report: None, pause_ms: 500 });
    assert_eq!(h.tick(), Beat { lit: false, report: Some(4), pause_ms: 500 });
}

#[test]
fn counter_grows_by_one_per_tick_over_ten_thousand_ticks() {
    let mut h = Heartbeat::new();
    for n in 1..=10_000u32 {
        let before = h.count();
        let lit_before = h.is_lit();
        let beat = h.tick();
        assert_eq!(h.count(), before.wrapping_add(1));
        assert_eq!(h.count(), n);
        assert_eq!(h.is_lit(), !lit_before);
        assert_eq!(beat.lit, h.is_lit());
        assert_eq!(beat.lit, n % 2 == 1);
        assert_eq!(beat.report, if n % 2 == 0 { Some(n) } else { None });
        assert_eq!(beat.pause_ms, CADENCE_MS);
    }
    assert_eq!(h.count(), 10_000);
}

#[test]
fn counter_wraps_at_two_to_the_thirty_two() {
    let mut h = Heartbeat::starting_at(u32::MAX - 1, false);
    let beat = h.tick();
    assert_eq!(h.count(), u32::MAX);
    assert_eq!(beat.report, None);
    let beat = h.tick();
    assert_eq!(h.count(), 0);
    assert_eq!(beat, Beat { lit: false, report: Some(0), pause_ms: 500 });
    h.tick();
    assert_eq!(h.count(), 1);
}

#[test]
fn ten_thousand_ticks_across_the_wrap() {
    let start = u32::MAX - 4_999;
    let mut h = Heartbeat::starting_at(start, true);
    for n in 1..=10_000u32 {
        h.tick();
        assert_eq!(h.count(), start.wrapping_add(n));
    }
    assert_eq!(h.count(), 5_000);
    assert!(h.is_lit());
}

#[test]
fn starting_at_sets_both_parts() {
    let h = Heartbeat::starting_at(41, true);
    assert_eq!(h.count(), 41);
    assert!(h.is_lit());
}
