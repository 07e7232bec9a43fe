//! Fallback estimator: deterministic but time-varying synthetic values
//! produced whenever the real counter pipeline is unavailable, so the
//! caller always has a number to show.  A coarse base value is chosen by
//! hour-of-day bucket, a small periodic variation with a one-minute
//! period and a small jitter derived from the current time are added,
//! and the sum is clamped to a sane range per quantity.  These values
//! are estimates, never measurements.
//!
//! Readings are integers: utilization in milli-percent, temperature in
//! milli-degrees Celsius, memory in bytes.

use vstd::prelude::*;

verus! {

/// VRAM size assumed when no real total is available.
pub const ASSUMED_TOTAL_VRAM_BYTES: u64 = 2 * 1024 * 1024 * 1024;

/// Largest utilization an estimate reports, in milli-percent.
pub const MAX_ESTIMATED_UTILIZATION_MILLI: u64 = 95000;

pub open spec fn clamp_int(v: int, lo: int, hi: int) -> int {
    if v < lo {
        lo
    } else if v > hi {
        hi
    } else {
        v
    }
}

pub open spec fn spec_hour_of_day(now_secs: int) -> int {
    (now_secs / 3600) % 24
}

pub open spec fn spec_minute_of_hour(now_secs: int) -> int {
    (now_secs / 60) % 60
}

/// Typical daily utilization pattern, by hour bucket (milli-percent).
pub open spec fn spec_base_utilization_milli(hour: int) -> int {
    if hour <= 6 {
        5000
    } else if hour <= 8 {
        12000
    } else if hour <= 12 {
        25000
    } else if hour <= 17 {
        30000
    } else if hour <= 20 {
        18000
    } else {
        8000
    }
}

/// Periodic variation over one minute, a triangle wave spanning about
/// plus or minus five percent (milli-percent).
pub open spec fn spec_minute_wave_milli(minute: int) -> int {
    if minute <= 15 {
        minute * 333
    } else if minute <= 45 {
        (30 - minute) * 333
    } else {
        (minute - 60) * 333
    }
}

/// Small jitter from the current second, about plus or minus half a
/// percent (milli-percent).
pub open spec fn spec_jitter_milli(now_secs: int) -> int {
    (now_secs % 10) * 100 - 500
}

/// The estimated utilization, clamped to 0..=95% (milli-percent).
pub open spec fn spec_estimated_utilization_milli(now_secs: int) -> int {
    clamp_int(
        spec_base_utilization_milli(spec_hour_of_day(now_secs)) + spec_minute_wave_milli(
            spec_minute_of_hour(now_secs),
        ) + spec_jitter_milli(now_secs),
        0,
        95000,
    )
}

/// Synthetic GPU utilization in milli-percent for the given time.
pub fn estimate_utilization_milli(now_secs: u64) -> (r: u64)
    ensures
        r == spec_estimated_utilization_milli(now_secs as int),
        r <= 95000,
{
    let hour = ((now_secs / 3600) % 24) as i64;
    let minute = ((now_secs / 60) % 60) as i64;
    let base: i64 = if hour <= 6 {
        5000
    } else if hour <= 8 {
        12000
    } else if hour <= 12 {
        25000
    } else if hour <= 17 {
        30000
    } else if hour <= 20 {
        18000
    } else {
        8000
    };
    let wave: i64 = if minute <= 15 {
        minute * 333
    } else if minute <= 45 {
        (30 - minute) * 333
    } else {
        (minute - 60) * 333
    };
    let jitter: i64 = ((now_secs % 10) as i64) * 100 - 500;
    let sum = base + wave + jitter;
    if sum < 0 {
        0
    } else if sum > 95000 {
        95000
    } else {
        sum as u64
    }
}

/// Typical daily memory-usage pattern, by hour bucket (per-mille of the
/// assumed total).
pub open spec fn spec_base_memory_ratio_permille(hour: int) -> int {
    if hour <= 6 {
        150
    } else if hour <= 8 {
        250
    } else if hour <= 12 {
        450
    } else if hour <= 17 {
        550
    } else if hour <= 20 {
        350
    } else {
        200
    }
}

/// Periodic variation of the memory ratio over one minute (per-mille).
pub open spec fn spec_memory_wave_permille(minute: int) -> int {
    if minute <= 15 {
        minute * 3
    } else if minute <= 45 {
        (30 - minute) * 3
    } else {
        (minute - 60) * 3
    }
}

/// Small jitter of the memory ratio from the current second (per-mille).
pub open spec fn spec_memory_jitter_permille(now_secs: int) -> int {
    (now_secs % 10) * 10 - 50
}

/// The estimated used-memory ratio, clamped to 10%..=80% (per-mille).
pub open spec fn spec_estimated_memory_ratio_permille(now_secs: int) -> int {
    clamp_int(
        spec_base_memory_ratio_permille(spec_hour_of_day(now_secs)) + spec_memory_wave_permille(
            spec_minute_of_hour(now_secs),
        ) + spec_memory_jitter_permille(now_secs),
        100,
        800,
    )
}

/// Synthetic memory usage for the given time: used and total bytes,
/// against the assumed fixed VRAM size, with the used share between ten
/// and eighty percent of the total.
pub fn estimate_memory_usage(now_secs: u64) -> (r: (u64, u64))
    ensures
        r.1 == ASSUMED_TOTAL_VRAM_BYTES,
        r.0 == ASSUMED_TOTAL_VRAM_BYTES as int * spec_estimated_memory_ratio_permille(
            now_secs as int,
        ) / 1000,
        ASSUMED_TOTAL_VRAM_BYTES as int / 10 <= r.0 <= ASSUMED_TOTAL_VRAM_BYTES as int * 8 / 10,
{
    let hour = ((now_secs / 3600) % 24) as i64;
    let minute = ((now_secs / 60) % 60) as i64;
    let base: i64 = if hour <= 6 {
        150
    } else if hour <= 8 {
        250
    } else if hour <= 12 {
        450
    } else if hour <= 17 {
        550
    } else if hour <= 20 {
        350
    } else {
        200
    };
    let wave: i64 = if minute <= 15 {
        minute * 3
    } else if minute <= 45 {
        (30 - minute) * 3
    } else {
        (minute - 60) * 3
    };
    let jitter: i64 = ((now_secs % 10) as i64) * 10 - 50;
    let sum = base + wave + jitter;
    let ratio: u64 = if sum < 100 {
        100
    } else if sum > 800 {
        800
    } else {
        sum as u64
    };
    let used = ASSUMED_TOTAL_VRAM_BYTES * ratio / 1000;
    assert(ASSUMED_TOTAL_VRAM_BYTES as int / 10 <= ASSUMED_TOTAL_VRAM_BYTES as int * ratio / 1000
        <= ASSUMED_TOTAL_VRAM_BYTES as int * 8 / 10) by (nonlinear_arith)
        requires
            100 <= ratio <= 800,
    ;
    (used, ASSUMED_TOTAL_VRAM_BYTES)
}

/// Temperature increase over the idle base for a utilization level
/// (milli-degrees, utilization in milli-percent).
pub open spec fn spec_temp_increase_milli(utilization_milli: int) -> int {
    if utilization_milli >= 80000 {
        37000
    } else if utilization_milli >= 60000 {
        27000
    } else if utilization_milli >= 40000 {
        17000
    } else if utilization_milli >= 20000 {
        10000
    } else {
        5000
    }
}

/// Small temperature variation from the current second, about plus or
/// minus one degree (milli-degrees).
pub open spec fn spec_temp_variation_milli(now_secs: int) -> int {
    (now_secs % 20) * 100 - 1000
}

/// The estimated temperature as a function of estimated utilization,
/// clamped to 30..=80 degrees Celsius (milli-degrees).
pub open spec fn spec_estimated_temperature_milli(utilization_milli: int, now_secs: int) -> int {
    clamp_int(
        38000 + spec_temp_increase_milli(utilization_milli) + spec_temp_variation_milli(now_secs),
        30000,
        80000,
    )
}

/// Synthetic temperature in milli-degrees Celsius for a utilization
/// level (milli-percent) at the given time.
pub fn estimate_temperature_from_utilization(utilization_milli: u64, now_secs: u64) -> (r: u64)
    ensures
        r == spec_estimated_temperature_milli(utilization_milli as int, now_secs as int),
        30000 <= r <= 80000,
{
    let increase: i64 = if utilization_milli >= 80000 {
        37000
    } else if utilization_milli >= 60000 {
        27000
    } else if utilization_milli >= 40000 {
        17000
    } else if utilization_milli >= 20000 {
        10000
    } else {
        5000
    };
    let variation: i64 = ((now_secs % 20) as i64) * 100 - 1000;
    let sum = 38000 + increase + variation;
    if sum < 30000 {
        30000
    } else if sum > 80000 {
        80000
    } else {
        sum as u64
    }
}

/// Synthetic temperature for the given time, derived from the estimated
/// utilization at that time.
pub fn estimate_temperature_milli(now_secs: u64) -> (r: u64)
    ensures
        r == spec_estimated_temperature_milli(
            spec_estimated_utilization_milli(now_secs as int),
            now_secs as int,
        ),
        30000 <= r <= 80000,
{
    let utilization = estimate_utilization_milli(now_secs);
    estimate_temperature_from_utilization(utilization, now_secs)
}

} // verus!
