//! Data model of the vendor protocol: context flags, sample types,
//! counter metadata, sample results, opaque handles, and the error
//! taxonomy of the acquisition layer.

use vstd::prelude::*;
use crate::GpuPerfApiVersion;
use crate::status::GpaStatus;

verus! {

/// Flags passed when opening a context.
#[derive(Debug, Clone, Copy, PartialEq, Eq, Structural)]
pub struct GpaOpenContextFlags {
    pub bits: u32,
}

impl GpaOpenContextFlags {
    pub fn none() -> (r: Self)
        ensures
            r.bits == 0,
    {
        GpaOpenContextFlags { bits: 0 }
    }

    pub fn enable_hardware_counters() -> (r: Self)
        ensures
            r.bits == 0x1,
    {
        GpaOpenContextFlags { bits: 0x1 }
    }

    pub fn enable_software_counters() -> (r: Self)
        ensures
            r.bits == 0x2,
    {
        GpaOpenContextFlags { bits: 0x2 }
    }
}

/// Flags reporting which sample types a context supports.
#[derive(Debug, Clone, Copy, PartialEq, Eq, Structural)]
pub struct GpaContextSampleTypeFlags {
    pub bits: u32,
}

impl GpaContextSampleTypeFlags {
    pub fn none() -> (r: Self)
        ensures
            r.bits == 0,
    {
        GpaContextSampleTypeFlags { bits: 0 }
    }

    pub fn discrete_counter() -> (r: Self)
        ensures
            r.bits == 0x1,
    {
        GpaContextSampleTypeFlags { bits: 0x1 }
    }

    pub fn cumulative_counter() -> (r: Self)
        ensures
            r.bits == 0x2,
    {
        GpaContextSampleTypeFlags { bits: 0x2 }
    }

    pub fn software() -> (r: Self)
        ensures
            r.bits == 0x4,
    {
        GpaContextSampleTypeFlags { bits: 0x4 }
    }
}

/// The kind of sampling a session is created for.
#[derive(Debug, Clone, Copy, PartialEq, Eq, Structural)]
pub enum GpaSessionSampleType {
    DiscreteCounter,
    CumulativeCounter,
    Software,
}

/// The integer code of a session sample type on the vendor ABI.
pub open spec fn spec_sample_type_code(t: GpaSessionSampleType) -> int {
    match t {
        GpaSessionSampleType::DiscreteCounter => 0,
        GpaSessionSampleType::CumulativeCounter => 1,
        GpaSessionSampleType::Software => 2,
    }
}

impl GpaSessionSampleType {
    pub fn code(self) -> (c: u32)
        ensures
            c == spec_sample_type_code(self),
    {
        match self {
            GpaSessionSampleType::DiscreteCounter => 0,
            GpaSessionSampleType::CumulativeCounter => 1,
            GpaSessionSampleType::Software => 2,
        }
    }
}

/// The kind of sampling a single counter supports.
#[derive(Debug, Clone, Copy, PartialEq, Eq, Structural)]
pub enum GpaCounterSampleType {
    Discrete,
    Cumulative,
}

/// Severity of a message the vendor library hands to the logging hook.
#[derive(Debug, Clone, Copy, PartialEq, Eq, Structural)]
pub enum GpaLoggingType {
    Error,
    Warning,
    Message,
    Trace,
}

/// The severity a raw logging-callback code denotes; unknown codes are
/// reported at trace level.
pub open spec fn spec_logging_type_from_code(c: int) -> GpaLoggingType {
    if c == 0 {
        GpaLoggingType::Error
    } else if c == 1 {
        GpaLoggingType::Warning
    } else if c == 2 {
        GpaLoggingType::Message
    } else {
        GpaLoggingType::Trace
    }
}

impl GpaLoggingType {
    pub fn from_code(c: u32) -> (t: GpaLoggingType)
        ensures
            t == spec_logging_type_from_code(c as int),
    {
        if c == 0 {
            GpaLoggingType::Error
        } else if c == 1 {
            GpaLoggingType::Warning
        } else if c == 2 {
            GpaLoggingType::Message
        } else {
            GpaLoggingType::Trace
        }
    }
}

/// A 128-bit identifier the vendor attaches to counters.
#[derive(Debug, Clone, Copy, PartialEq, Eq)]
pub struct GpaUuid {
    pub data: [u8; 16],
}

/// One GPU adapter as reported to callers.
#[derive(Debug, Clone, PartialEq, Eq)]
pub struct GpuAdapterInfo {
    pub name: String,
    pub vendor_id: u32,
    pub device_id: u32,
    pub hardware_generation: Option<String>,
}

/// Device record of the legacy revision's device enumeration.
#[derive(Debug, Clone)]
pub struct GpaDeviceInfo {
    pub device_id: u32,
    pub device_name: [i8; 256],
    pub vendor_id: u32,
    pub revision_id: u32,
    pub device_index: u32,
}

/// Machine representation of one counter's value in a sample result.
#[derive(Debug, Clone, Copy, PartialEq, Eq, Structural)]
pub enum GpaDataType {
    Float32,
    Float64,
    UInt32,
    UInt64,
    Int32,
    Int64,
    Double,
}

/// Unit/interpretation the vendor assigns to a counter.
#[derive(Debug, Clone, Copy, PartialEq, Eq, Structural)]
pub enum GpaUsageType {
    Ratio,
    Percentage,
    Kilobytes,
    Bytes,
    Megabytes,
    Gigabytes,
    Terabytes,
    KiloBytesPerSecond,
    MegaBytesPerSecond,
    GigaBytesPerSecond,
    TeraBytesPerSecond,
    Cycles,
    Milliseconds,
    Nanoseconds,
    PercentageOfPeak,
    Items,
    Count,
}

/// Tag of the tagged union a sample result carries.
#[derive(Debug, Clone, Copy, PartialEq, Eq, Structural)]
pub enum GpaResultType {
    Bool,
    Int64,
    Float32,
    Float64,
    Uint64,
    String,
}

/// The result-type tag a raw integer code denotes, if any.
pub open spec fn spec_result_type_from_code(c: int) -> Option<GpaResultType> {
    if c == 0 {
        Some(GpaResultType::Bool)
    } else if c == 1 {
        Some(GpaResultType::Int64)
    } else if c == 2 {
        Some(GpaResultType::Float32)
    } else if c == 3 {
        Some(GpaResultType::Float64)
    } else if c == 4 {
        Some(GpaResultType::Uint64)
    } else if c == 5 {
        Some(GpaResultType::String)
    } else {
        None
    }
}

impl GpaResultType {
    pub fn from_code(c: u32) -> (t: Option<GpaResultType>)
        ensures
            t == spec_result_type_from_code(c as int),
    {
        if c == 0 {
            Some(GpaResultType::Bool)
        } else if c == 1 {
            Some(GpaResultType::Int64)
        } else if c == 2 {
            Some(GpaResultType::Float32)
        } else if c == 3 {
            Some(GpaResultType::Float64)
        } else if c == 4 {
            Some(GpaResultType::Uint64)
        } else if c == 5 {
            Some(GpaResultType::String)
        } else {
            None
        }
    }
}

/// One sample result as the vendor returns it: a raw 64-bit value plus
/// the tag saying how to read it.
#[derive(Debug, Clone, Copy, PartialEq, Eq, Structural)]
pub struct GpaSampleResult {
    pub sample_id: u32,
    pub counter_index: u32,
    pub result: u64,
    pub result_type: GpaResultType,
}

/// Metadata of one enumerated counter.
#[derive(Debug, Clone)]
pub struct CounterInfo {
    pub name: String,
    pub group: String,
    pub description: String,
    pub data_type: GpaDataType,
    pub usage_type: GpaUsageType,
    pub result_type: GpaResultType,
}

/// Opaque native context handle, carried as its raw address value.  A
/// context is opened against one physical adapter and held for the
/// monitor's lifetime.
#[derive(Debug, Clone, Copy, PartialEq, Eq, Structural)]
pub struct GpaContextId {
    pub raw: u64,
}

/// Opaque native session handle, carried as its raw address value.  A
/// session is created within a context and is the unit of counter
/// enable/sample/collect.
#[derive(Debug, Clone, Copy, PartialEq, Eq, Structural)]
pub struct GpaSessionId {
    pub raw: u64,
}

/// Errors of the acquisition layer.  Library-load and symbol-resolution
/// failures are fatal to monitor construction; the rest are recoverable
/// per poll and are absorbed before they reach the caller-facing
/// surface.
#[derive(Debug, Clone, Copy, PartialEq, Eq, Structural)]
pub enum GpaError {
    /// No candidate library could be loaded.
    LibraryLoad,
    /// A mandatory exported symbol could not be resolved.
    SymbolResolution,
    /// The operation has no equivalent on this revision.
    UnsupportedOperation { version: GpuPerfApiVersion },
    /// A vendor call returned a non-success status.
    Status { status: GpaStatus },
    /// The bounded completion poll ran out of attempts.
    Timeout,
}

/// Result type of the acquisition layer's fallible operations.
pub type GpaResult<T> = Result<T, GpaError>;

} // verus!
