//! Acquisition layer for AMD GPU performance counters.
//!
//! The library models the dual-revision GPUPerfAPI protocol: version
//! detection from GPU model names, the ordered candidate lists used to
//! locate the vendor library and its exported symbols, function-table
//! negotiation, the session/sampling state machine with its bounded
//! completion poll, counter discovery and caching, sample decoding, and
//! the fallback estimator used when the real pipeline is unavailable.
//!
//! Everything here is plain decision logic: the host program performs
//! the dynamic-library and FFI calls and feeds their outcomes back in
//! as values.

use vstd::prelude::*;

pub mod assets;
pub mod counters;
pub mod decode;
pub mod estimator;
pub mod monitor;
pub mod pci;
pub mod resolver;
pub mod session;
pub mod status;
pub mod strutil;
pub mod symbols;
pub mod table;
pub mod types;
pub mod version;

verus! {

/// The two incompatible revisions of the vendor profiling API that the
/// acquisition layer supports side by side.
#[derive(Debug, Clone, Copy, PartialEq, Eq, Structural)]
pub enum GpuPerfApiVersion {
    V3_17,
    V4_1,
}

impl GpuPerfApiVersion {
    /// Short numeric form of the revision, as shown to users.
    pub fn as_str(self) -> (r: &'static str)
        ensures
            self is V3_17 ==> r@ == "3.17"@,
            self is V4_1 ==> r@ == "4.1"@,
    {
        match self {
            GpuPerfApiVersion::V3_17 => "3.17",
            GpuPerfApiVersion::V4_1 => "4.1",
        }
    }
}

} // verus!
