//! Per-category decoding of sample results.  The numeric interpretation
//! of a raw 64-bit result depends on which logical counter produced it:
//! a utilization is a percentage, a memory counter is a byte count, and
//! a temperature is either direct degrees Celsius or milli-degrees (the
//! observed heuristic: a value over one thousand is milli-degrees).
//! Float-tagged results carry IEEE bits, which this library does not
//! interpret; the host decodes those and clamps the result here.

use vstd::prelude::*;
use crate::counters::CounterCategory;
use crate::types::GpaResultType;

verus! {

/// A decoded sample value.
#[derive(Debug, Clone, Copy, PartialEq, Eq, Structural)]
pub enum DecodedSample {
    /// Utilization in milli-percent or temperature in milli-degrees.
    Milli(u64),
    /// A byte count from a memory counter.
    Bytes(u64),
    /// IEEE bits of a float-tagged result, for the host to interpret.
    FloatBits(u64),
    /// A tag this counter category has no reading for.
    Unsupported,
}

/// Temperature heuristic: a raw value over one thousand is already in
/// milli-degrees, anything else is whole degrees.  Best effort, not a
/// vendor guarantee; clamped to 0..=150 degrees.
pub open spec fn spec_temperature_milli_of_raw(raw: int) -> int {
    let milli = if raw > 1000 {
        raw
    } else {
        raw * 1000
    };
    if milli > 150000 {
        150000
    } else {
        milli
    }
}

/// What a raw result decodes to for a counter category.
pub open spec fn spec_decode_sample(
    category: CounterCategory,
    result_type: GpaResultType,
    raw: int,
) -> DecodedSample {
    if result_type is Float32 || result_type is Float64 {
        DecodedSample::FloatBits(raw as u64)
    } else if result_type is Uint64 {
        match category {
            CounterCategory::Utilization => DecodedSample::Milli(
                (if raw > 100 {
                    100000int
                } else {
                    raw * 1000
                }) as u64,
            ),
            CounterCategory::MemoryUsed => DecodedSample::Bytes(raw as u64),
            CounterCategory::MemoryTotal => DecodedSample::Bytes(raw as u64),
            CounterCategory::Temperature => DecodedSample::Milli(
                spec_temperature_milli_of_raw(raw) as u64,
            ),
        }
    } else {
        DecodedSample::Unsupported
    }
}

/// Decode one raw sample result for the counter category it was
/// sampled for.
pub fn decode_sample(category: CounterCategory, result_type: GpaResultType, raw: u64) -> (d:
    DecodedSample)
    ensures
        d == spec_decode_sample(category, result_type, raw as int),
{
    if matches!(result_type, GpaResultType::Float32) || matches!(
        result_type,
        GpaResultType::Float64,
    ) {
        DecodedSample::FloatBits(raw)
    } else if matches!(result_type, GpaResultType::Uint64) {
        match category {
            CounterCategory::Utilization => {
                if raw > 100 {
                    DecodedSample::Milli(100000)
                } else {
                    DecodedSample::Milli(raw * 1000)
                }
            },
            CounterCategory::MemoryUsed => DecodedSample::Bytes(raw),
            CounterCategory::MemoryTotal => DecodedSample::Bytes(raw),
            CounterCategory::Temperature => {
                let milli = if raw > 1000 {
                    raw
                } else {
                    raw * 1000
                };
                if milli > 150000 {
                    DecodedSample::Milli(150000)
                } else {
                    DecodedSample::Milli(milli)
                }
            },
        }
    } else {
        DecodedSample::Unsupported
    }
}

/// Clamp a host-decoded utilization to 0..=100% (milli-percent).
pub fn clamp_utilization_milli(milli: u64) -> (r: u64)
    ensures
        r == (if milli > 100000 {
            100000int
        } else {
            milli as int
        }),
{
    if milli > 100000 {
        100000
    } else {
        milli
    }
}

/// Clamp a host-decoded temperature to 0..=150 degrees (milli-degrees).
pub fn clamp_temperature_milli(milli: u64) -> (r: u64)
    ensures
        r == (if milli > 150000 {
            150000int
        } else {
            milli as int
        }),
{
    if milli > 150000 {
        150000
    } else {
        milli
    }
}

} // verus!
