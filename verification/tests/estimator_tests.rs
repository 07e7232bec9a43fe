use gpa_monitor::estimator::{
    estimate_memory_usage, estimate_temperature_from_utilization, estimate_temperature_milli,
    estimate_utilization_milli, ASSUMED_TOTAL_VRAM_BYTES,
};

#[test]
fn test_utilization_estimate_exact_values() {
    // Midnight sharp: late-night base 5%, flat wave, jitter -0.5%.
    assert_eq!(estimate_utilization_milli(0), 4500);
    // One in the afternoon: base 30%, flat wave, jitter -0.5%.
    assert_eq!(estimate_utilization_milli(46800), 29500);
    // 10:20:07: base 25%, wave (30-20)*0.333%, jitter +0.2%.
    assert_eq!(estimate_utilization_milli(37207), 28530);
}

#[test]
fn test_utilization_estimate_clamps_at_zero() {
    // 00:45:00: base 5%, wave -4.995%, jitter -0.5% adds up below zero.
    assert_eq!(estimate_utilization_milli(2700), 0);
}

#[test]
fn test_utilization_estimate_range() {
    let mut now = 0u64;
    while now < 90000 {
        assert!(estimate_utilization_milli(now) <= 95000);
        now += 977;
    }
}

#[test]
fn test_memory_estimate_exact_values() {
    // Midnight sharp: ratio clamps up to the 10% floor.
    let (used, total) = estimate_memory_usage(0);
    assert_eq!(total, ASSUMED_TOTAL_VRAM_BYTES);
    assert_eq!(used, 214748364);
    // One in the afternoon: 55% - 5% jitter = half the total.
    let (used, _) = estimate_memory_usage(46800);
    assert_eq!(used, 1073741824);
}

#[test]
fn test_memory_estimate_range() {
    let mut now = 0u64;
    while now < 90000 {
        let (used, total) = estimate_memory_usage(now);
        assert_eq!(total, ASSUMED_TOTAL_VRAM_BYTES);
        assert!(used >= total / 10);
        assert!(used <= total / 10 * 8);
        now += 977;
    }
}

#[test]
fn test_temperature_estimate_exact_values() {
    // Midnight: estimated utilization 4.5% -> light-load increase 5C,
    // variation -1C over the 38C idle base.
    assert_eq!(estimate_temperature_milli(0), 42000);
    // High load at second 19 of the variation cycle.
    assert_eq!(estimate_temperature_from_utilization(85000, 19), 75900);
    assert_eq!(estimate_temperature_from_utilization(85000, 5), 74500);
}

#[test]
fn test_temperature_estimate_range() {
    let mut now = 0u64;
    while now < 90000 {
        let t = estimate_temperature_milli(now);
        assert!((30000..=80000).contains(&t));
        now += 977;
    }
}
