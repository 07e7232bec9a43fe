//! The AMD GPU monitor: construction from the host's load, binding and
//! negotiation outcomes, the counter cache, and the caller-facing
//! reading surface.
//!
//! The caller-facing getters are total: whatever the internal failure,
//! they return a value — a real decoded sample where one was measured, a
//! zero placeholder for a timed-out pass, and a fallback estimate
//! whenever the real pipeline is unavailable.  No per-poll failure ever
//! propagates past a getter.

use vstd::prelude::*;
use crate::GpuPerfApiVersion;
use crate::counters::{CounterCache, CounterCategory};
use crate::decode::{spec_decode_sample, DecodedSample};
use crate::estimator::{
    clamp_int, estimate_memory_usage, estimate_temperature_milli, estimate_utilization_milli,
    spec_estimated_memory_ratio_permille, spec_estimated_temperature_milli,
    spec_estimated_utilization_milli, ASSUMED_TOTAL_VRAM_BYTES,
};
use crate::session::SessionMachine;
use crate::status::GpaStatus;
use crate::symbols::SymbolBinding;
use crate::table::GpaFunctionTable;
use crate::types::{GpaError, GpaResult, GpaSampleResult, GpuAdapterInfo};
use crate::strutil::{contains_seq, lower_seq, str_contains_lower};
use crate::version::AmdVersionDetector;

verus! {

/// Used and total bytes reported when the pipeline answered but both
/// memory counters read zero.
pub const DEFAULT_MEMORY_USED_BYTES: u64 = 2147483648;

pub const DEFAULT_MEMORY_TOTAL_BYTES: u64 = 8589934592;

/// What one sampling pass produced for a single-counter reading.  The
/// host drives the session machine and summarizes the pass here.
#[derive(Debug, Clone, Copy, PartialEq, Eq, Structural)]
pub enum SampleAttempt {
    /// The function table is absent or lacks the needed operations.
    TableUnavailable,
    /// Counter discovery found no counter for this category.
    CounterUnavailable,
    /// A vendor call failed during the pass.
    Failed(GpaStatus),
    /// The completion poll ran out of attempts.
    TimedOut,
    /// The pass completed with this result.
    Measured(GpaSampleResult),
    /// The pass completed with a float-tagged result that the host
    /// already converted to milli units (floats stay outside this
    /// library).
    MeasuredMilli(u64),
}

/// What one memory pass produced: both counters sampled, a zero
/// standing for a counter that was missing or failed.
#[derive(Debug, Clone, Copy, PartialEq, Eq, Structural)]
pub enum MemoryAttempt {
    /// The pipeline could not produce a reading at all.
    Unavailable,
    /// Used and total bytes as sampled.
    Measured { used: u64, total: u64 },
}

/// The utilization reading for a pass outcome, in milli-percent.
pub open spec fn spec_utilization_reading(available: bool, attempt: SampleAttempt, now_secs: int) -> int {
    if !available {
        spec_estimated_utilization_milli(now_secs)
    } else {
        match attempt {
            SampleAttempt::TableUnavailable => spec_estimated_utilization_milli(now_secs),
            SampleAttempt::CounterUnavailable => spec_estimated_utilization_milli(now_secs),
            SampleAttempt::Failed(_) => spec_estimated_utilization_milli(now_secs),
            SampleAttempt::TimedOut => 0,
            SampleAttempt::Measured(res) => match spec_decode_sample(
                CounterCategory::Utilization,
                res.result_type,
                res.result as int,
            ) {
                DecodedSample::Milli(m) => m as int,
                _ => 0,
            },
            SampleAttempt::MeasuredMilli(m) => clamp_int(m as int, 0, 100000),
        }
    }
}

/// The temperature reading for a pass outcome, in milli-degrees.
pub open spec fn spec_temperature_reading(available: bool, attempt: SampleAttempt, now_secs: int) -> int {
    if !available {
        spec_estimated_temperature_milli(spec_estimated_utilization_milli(now_secs), now_secs)
    } else {
        match attempt {
            SampleAttempt::TableUnavailable => spec_estimated_temperature_milli(
                spec_estimated_utilization_milli(now_secs),
                now_secs,
            ),
            SampleAttempt::CounterUnavailable => spec_estimated_temperature_milli(
                spec_estimated_utilization_milli(now_secs),
                now_secs,
            ),
            SampleAttempt::Failed(_) => spec_estimated_temperature_milli(
                spec_estimated_utilization_milli(now_secs),
                now_secs,
            ),
            SampleAttempt::TimedOut => 0,
            SampleAttempt::Measured(res) => match spec_decode_sample(
                CounterCategory::Temperature,
                res.result_type,
                res.result as int,
            ) {
                DecodedSample::Milli(m) => m as int,
                _ => 0,
            },
            SampleAttempt::MeasuredMilli(m) => clamp_int(m as int, 0, 150000),
        }
    }
}

/// The memory reading (used, total) for a pass outcome, in bytes.
pub open spec fn spec_memory_reading(available: bool, attempt: MemoryAttempt, now_secs: int) -> (
    int,
    int,
) {
    if !available {
        (
            ASSUMED_TOTAL_VRAM_BYTES as int * spec_estimated_memory_ratio_permille(now_secs) / 1000,
            ASSUMED_TOTAL_VRAM_BYTES as int,
        )
    } else {
        match attempt {
            MemoryAttempt::Unavailable => (
                ASSUMED_TOTAL_VRAM_BYTES as int * spec_estimated_memory_ratio_permille(now_secs)
                    / 1000,
                ASSUMED_TOTAL_VRAM_BYTES as int,
            ),
            MemoryAttempt::Measured { used, total } => if used == 0 && total == 0 {
                (DEFAULT_MEMORY_USED_BYTES as int, DEFAULT_MEMORY_TOTAL_BYTES as int)
            } else {
                (used as int, total as int)
            },
        }
    }
}

/// One AMD GPU monitor: revision detection, the negotiated table, the
/// session machine, and the per-session counter cache.
pub struct AmdGpuMonitor {
    pub version_detector: AmdVersionDetector,
    pub machine: SessionMachine,
    pub function_table: Option<GpaFunctionTable>,
    pub cached_counters: Option<CounterCache>,
    pub is_initialized: bool,
    pub has_available_monitor: bool,
}

impl AmdGpuMonitor {
    /// The detector memo and the machine are well formed, availability
    /// implies a finished construction, and counter indices are cached
    /// only while the session they were discovered in exists.
    pub open spec fn wf(self) -> bool {
        &&& self.version_detector.wf()
        &&& self.machine.wf()
        &&& self.has_available_monitor ==> self.is_initialized
        &&& self.cached_counters is Some ==> self.machine.session is Some
    }

    /// A fresh monitor: nothing loaded, nothing available.
    pub fn new() -> (m: Self)
        ensures
            m.wf(),
            !m.is_initialized,
            !m.has_available_monitor,
            m.function_table is None,
            m.cached_counters is None,
            m.machine.state is Uninitialized,
    {
        AmdGpuMonitor {
            version_detector: AmdVersionDetector::new(),
            machine: SessionMachine::new(GpuPerfApiVersion::V3_17),
            function_table: None,
            cached_counters: None,
            is_initialized: false,
            has_available_monitor: false,
        }
    }

    /// Construction from the host's staged outcomes: the library load,
    /// the mandatory-symbol binding, and the status the function-table
    /// entry point returned (absent only when that entry point did not
    /// resolve).
    ///
    /// Load and binding failures are fatal and leave the monitor
    /// unavailable, and so is an absent entry point: the function-table
    /// entry point is a mandatory symbol, so "never negotiated" fails
    /// construction.  A negotiation that ran and returned a non-success
    /// status is not fatal: whatever the status — the "command list not
    /// closed" quirk included — the monitor constructs, at worst with
    /// its function table absent, and every table-dependent operation
    /// then falls back.
    pub fn initialize(
        &mut self,
        revision: GpuPerfApiVersion,
        load: &GpaResult<usize>,
        binding: &GpaResult<SymbolBinding>,
        negotiation_status: Option<GpaStatus>,
        table: &GpaFunctionTable,
    ) -> (r: GpaResult<()>)
        requires
            old(self).wf(),
        ensures
            final(self).wf(),
            final(self).version_detector == old(self).version_detector,
            load matches Err(e) ==> r == Err::<(), GpaError>(*e) && !final(self).is_initialized
                && !final(self).has_available_monitor && final(self).function_table is None,
            load is Ok ==> (binding matches Err(e) ==> r == Err::<(), GpaError>(*e)
                && !final(self).is_initialized && !final(self).has_available_monitor
                && final(self).function_table is None),
            load is Ok && binding is Ok && negotiation_status is None
                ==> r == Err::<(), GpaError>(GpaError::SymbolResolution)
                && !final(self).is_initialized && !final(self).has_available_monitor
                && final(self).function_table is None,
            load is Ok && binding is Ok && negotiation_status is Some ==> {
                &&& r is Ok
                &&& final(self).is_initialized
                &&& final(self).has_available_monitor
                &&& final(self).machine.revision == revision
                &&& final(self).machine.state is Uninitialized
                &&& final(self).cached_counters is None
                &&& (negotiation_status == Some(GpaStatus::Success) ==> final(self).function_table
                    == Some(*table))
                &&& (negotiation_status != Some(GpaStatus::Success)
                    ==> final(self).function_table is None)
            },
    {
        self.function_table = None;
        self.cached_counters = None;
        self.is_initialized = false;
        self.has_available_monitor = false;
        self.machine = SessionMachine::new(revision);
        if let Err(e) = load {
            return Err(*e);
        }
        if let Err(e) = binding {
            return Err(*e);
        }
        let status = match negotiation_status {
            Some(status) => status,
            None => {
                return Err(GpaError::SymbolResolution);
            },
        };
        if status.is_success() {
            self.function_table = Some(*table);
        }
        self.is_initialized = true;
        self.has_available_monitor = true;
        Ok(())
    }

    /// Whether real monitoring is available.
    pub fn is_available(&self) -> (r: bool)
        ensures
            r == self.has_available_monitor,
    {
        self.has_available_monitor
    }

    /// One line describing the monitor for diagnostics.
    pub fn get_monitor_info(&self) -> (r: String)
        ensures
            self.is_initialized && self.machine.revision is V4_1 ==> r@ == "GPUPerfAPI 4.1"@,
            self.is_initialized && self.machine.revision is V3_17 ==> r@ == "GPUPerfAPI 3.17"@,
            !self.is_initialized ==> r@ == "AMD monitor not available"@,
    {
        if self.is_initialized {
            AmdVersionDetector::get_version_name(self.machine.revision).to_owned()
        } else {
            "AMD monitor not available".to_owned()
        }
    }

    /// Record the counter cache discovered for the current session.
    pub fn set_counter_cache(&mut self, cache: CounterCache)
        requires
            old(self).wf(),
            old(self).machine.session is Some,
        ensures
            final(self).wf(),
            *final(self) == (AmdGpuMonitor { cached_counters: Some(cache), ..*old(self) }),
    {
        self.cached_counters = Some(cache);
    }

    /// The cached counter index for a category, if discovery found one.
    pub fn cached_counter(&self, category: CounterCategory) -> (r: Option<u32>)
        ensures
            r == (match self.cached_counters {
                Some(cache) => match category {
                    CounterCategory::Utilization => cache.utilization_counter,
                    CounterCategory::MemoryUsed => cache.memory_used_counter,
                    CounterCategory::MemoryTotal => cache.memory_total_counter,
                    CounterCategory::Temperature => cache.temperature_counter,
                },
                None => None::<u32>,
            }),
    {
        match &self.cached_counters {
            Some(cache) => match category {
                CounterCategory::Utilization => cache.utilization_counter,
                CounterCategory::MemoryUsed => cache.memory_used_counter,
                CounterCategory::MemoryTotal => cache.memory_total_counter,
                CounterCategory::Temperature => cache.temperature_counter,
            },
            None => None,
        }
    }

    /// GPU utilization in milli-percent.  Total: never an error.  A
    /// measured pass decodes per the result tag; a timed-out pass reads
    /// as the zero placeholder for this cycle; everything else falls
    /// back to the estimator.
    pub fn get_gpu_utilization(&self, attempt: &SampleAttempt, now_secs: u64) -> (r: u64)
        ensures
            r == spec_utilization_reading(self.has_available_monitor, *attempt, now_secs as int),
            r <= 150000,
            !self.has_available_monitor ==> r == spec_estimated_utilization_milli(now_secs as int)
                && r <= 95000,
    {
        if !self.has_available_monitor {
            return estimate_utilization_milli(now_secs);
        }
        match attempt {
            SampleAttempt::TableUnavailable => estimate_utilization_milli(now_secs),
            SampleAttempt::CounterUnavailable => estimate_utilization_milli(now_secs),
            SampleAttempt::Failed(_) => estimate_utilization_milli(now_secs),
            SampleAttempt::TimedOut => 0,
            SampleAttempt::Measured(res) => {
                match crate::decode::decode_sample(
                    CounterCategory::Utilization,
                    res.result_type,
                    res.result,
                ) {
                    DecodedSample::Milli(m) => m,
                    _ => 0,
                }
            },
            SampleAttempt::MeasuredMilli(m) => crate::decode::clamp_utilization_milli(*m),
        }
    }

    /// Memory usage as (used bytes, total bytes).  Total: never an
    /// error.  A pass that read zeroes for both counters reports the
    /// fixed defaults; an unavailable pipeline reports the estimate.
    pub fn get_memory_usage(&self, attempt: &MemoryAttempt, now_secs: u64) -> (r: (u64, u64))
        ensures
            (r.0 as int, r.1 as int) == spec_memory_reading(
                self.has_available_monitor,
                *attempt,
                now_secs as int,
            ),
            !self.has_available_monitor ==> r.1 == ASSUMED_TOTAL_VRAM_BYTES && r.0 <= r.1,
    {
        if !self.has_available_monitor {
            return estimate_memory_usage(now_secs);
        }
        match attempt {
            MemoryAttempt::Unavailable => estimate_memory_usage(now_secs),
            MemoryAttempt::Measured { used, total } => {
                if *used == 0 && *total == 0 {
                    (DEFAULT_MEMORY_USED_BYTES, DEFAULT_MEMORY_TOTAL_BYTES)
                } else {
                    (*used, *total)
                }
            },
        }
    }

    /// GPU temperature in milli-degrees Celsius.  Total: never an
    /// error.  Same policy as utilization, with the temperature decode
    /// heuristic for integer-tagged results.
    pub fn get_temperature(&self, attempt: &SampleAttempt, now_secs: u64) -> (r: u64)
        ensures
            r == spec_temperature_reading(self.has_available_monitor, *attempt, now_secs as int),
            r <= 150000,
            !self.has_available_monitor ==> 30000 <= r <= 80000,
    {
        if !self.has_available_monitor {
            return estimate_temperature_milli(now_secs);
        }
        match attempt {
            SampleAttempt::TableUnavailable => estimate_temperature_milli(now_secs),
            SampleAttempt::CounterUnavailable => estimate_temperature_milli(now_secs),
            SampleAttempt::Failed(_) => estimate_temperature_milli(now_secs),
            SampleAttempt::TimedOut => 0,
            SampleAttempt::Measured(res) => {
                match crate::decode::decode_sample(
                    CounterCategory::Temperature,
                    res.result_type,
                    res.result,
                ) {
                    DecodedSample::Milli(m) => m,
                    _ => 0,
                }
            },
            SampleAttempt::MeasuredMilli(m) => crate::decode::clamp_temperature_milli(*m),
        }
    }
}

/// The pass summary for an error a session-machine transition reported:
/// a vendor status is carried for diagnostics, a timeout stays a
/// timeout, and the construction-time errors mean the pipeline was
/// never usable for this pass.
pub fn attempt_from_error(e: GpaError) -> (r: SampleAttempt)
    ensures
        e matches GpaError::Status { status } ==> r == SampleAttempt::Failed(status),
        e is Timeout ==> r is TimedOut,
        !(e matches GpaError::Status { status }) && !(e is Timeout)
            ==> r is TableUnavailable,
{
    match e {
        GpaError::Status { status } => SampleAttempt::Failed(status),
        GpaError::Timeout => SampleAttempt::TimedOut,
        _ => SampleAttempt::TableUnavailable,
    }
}

/// The adapter is an AMD GPU: its model name carries an AMD brand
/// token, or its Plug-and-Play identifier carries the AMD vendor id.
pub open spec fn spec_is_amd_gpu(name: Seq<char>, pnp_device_id: Seq<char>) -> bool {
    ||| contains_seq(lower_seq(name), "amd"@)
    ||| contains_seq(lower_seq(name), "radeon"@)
    ||| contains_seq(lower_seq(name), "rx "@)
    ||| contains_seq(lower_seq(pnp_device_id), "ven_1002"@)
}

/// Whether a GPU, as named by the system, is an AMD GPU this monitor
/// should handle.
pub fn is_amd_gpu(name: &str, pnp_device_id: &str) -> (r: bool)
    ensures
        r == spec_is_amd_gpu(name@, pnp_device_id@),
{
    str_contains_lower(name, "amd") || str_contains_lower(name, "radeon") || str_contains_lower(
        name,
        "rx ",
    ) || str_contains_lower(pnp_device_id, "ven_1002")
}

/// One reported adapter has this name and hardware generation, with the
/// AMD vendor id and the default device id.
pub open spec fn adapter_is(a: GpuAdapterInfo, name: Seq<char>, generation: Seq<char>) -> bool {
    &&& a.name@ == name
    &&& a.vendor_id == 0x1002
    &&& a.device_id == 0
    &&& match a.hardware_generation {
        Some(g) => g@ == generation,
        None => false,
    }
}

/// The adapter list reported for a revision, given the function-table
/// negotiation status (absent when the entry point did not resolve).
/// One adapter is reported per working configuration; on the modern
/// revision the known quirk and a missing entry point still yield a
/// fallback adapter rather than an error.  A constructed monitor always
/// holds that entry point — it is a mandatory symbol — so the absent
/// case arises only when enumerating adapters without a monitor.
pub fn get_adapters(version: GpuPerfApiVersion, negotiation_status: Option<GpaStatus>) -> (r:
    GpaResult<Vec<GpuAdapterInfo>>)
    ensures
        match negotiation_status {
            Some(s) => {
                if s is Success {
                    match version {
                        GpuPerfApiVersion::V3_17 => r matches Ok(a) && a@.len() == 1 && adapter_is(
                            a@[0],
                            "AMD GPU (GPUPerfAPI 3.17)"@,
                            "Legacy"@,
                        ),
                        GpuPerfApiVersion::V4_1 => r matches Ok(a) && a@.len() == 1 && adapter_is(
                            a@[0],
                            "AMD GPU (GPUPerfAPI 4.1)"@,
                            "Modern"@,
                        ),
                    }
                } else if s is CommandListNotClosed && version is V4_1 {
                    r matches Ok(a) && a@.len() == 1 && adapter_is(
                        a@[0],
                        "AMD GPU (GPUPerfAPI 4.1 - Fallback)"@,
                        "Modern"@,
                    )
                } else {
                    r == Err::<Vec<GpuAdapterInfo>, GpaError>((GpaError::Status { status: s }))
                }
            },
            None => match version {
                GpuPerfApiVersion::V3_17 => r == Err::<Vec<GpuAdapterInfo>, GpaError>(
                    (GpaError::UnsupportedOperation { version }),
                ),
                GpuPerfApiVersion::V4_1 => r matches Ok(a) && a@.len() == 1 && adapter_is(
                    a@[0],
                    "AMD GPU (GPUPerfAPI 4.1 - Default)"@,
                    "Unknown"@,
                ),
            },
        },
{
    let modern = matches!(version, GpuPerfApiVersion::V4_1);
    match negotiation_status {
        Some(status) => {
            if status.is_success() {
                let mut adapters: Vec<GpuAdapterInfo> = Vec::new();
                if modern {
                    adapters.push(GpuAdapterInfo {
                        name: "AMD GPU (GPUPerfAPI 4.1)".to_owned(),
                        vendor_id: 0x1002,
                        device_id: 0,
                        hardware_generation: Some("Modern".to_owned()),
                    });
                } else {
                    adapters.push(GpuAdapterInfo {
                        name: "AMD GPU (GPUPerfAPI 3.17)".to_owned(),
                        vendor_id: 0x1002,
                        device_id: 0,
                        hardware_generation: Some("Legacy".to_owned()),
                    });
                }
                Ok(adapters)
            } else if status.is_command_list_quirk() && modern {
                let mut adapters: Vec<GpuAdapterInfo> = Vec::new();
                adapters.push(GpuAdapterInfo {
                    name: "AMD GPU (GPUPerfAPI 4.1 - Fallback)".to_owned(),
                    vendor_id: 0x1002,
                    device_id: 0,
                    hardware_generation: Some("Modern".to_owned()),
                });
                Ok(adapters)
            } else {
                Err(GpaError::Status { status })
            }
        },
        None => {
            if modern {
                let mut adapters: Vec<GpuAdapterInfo> = Vec::new();
                adapters.push(GpuAdapterInfo {
                    name: "AMD GPU (GPUPerfAPI 4.1 - Default)".to_owned(),
                    vendor_id: 0x1002,
                    device_id: 0,
                    hardware_generation: Some("Unknown".to_owned()),
                });
                Ok(adapters)
            } else {
                Err(GpaError::UnsupportedOperation { version })
            }
        },
    }
}

/// When no monitor is available every reading is the fallback
/// estimator's, inside its documented clamped range: utilization within
/// 0..=95%, used memory between ten and eighty percent of the assumed
/// total, temperature within 30..=80 degrees Celsius.
pub proof fn lemma_unavailable_readings_are_estimates(
    attempt: SampleAttempt,
    mem_attempt: MemoryAttempt,
    now_secs: int,
)
    ensures
        spec_utilization_reading(false, attempt, now_secs) == spec_estimated_utilization_milli(
            now_secs,
        ),
        0 <= spec_utilization_reading(false, attempt, now_secs) <= 95000,
        spec_memory_reading(false, mem_attempt, now_secs).1 == ASSUMED_TOTAL_VRAM_BYTES as int,
        ASSUMED_TOTAL_VRAM_BYTES as int / 10 <= spec_memory_reading(false, mem_attempt, now_secs).0
            <= ASSUMED_TOTAL_VRAM_BYTES as int * 8 / 10,
        spec_temperature_reading(false, attempt, now_secs) == spec_estimated_temperature_milli(
            spec_estimated_utilization_milli(now_secs),
            now_secs,
        ),
        30000 <= spec_temperature_reading(false, attempt, now_secs) <= 80000,
{
    assert(100 <= spec_estimated_memory_ratio_permille(now_secs) <= 800);
    assert(ASSUMED_TOTAL_VRAM_BYTES as int / 10 <= ASSUMED_TOTAL_VRAM_BYTES as int
        * spec_estimated_memory_ratio_permille(now_secs) / 1000 <= ASSUMED_TOTAL_VRAM_BYTES as int
        * 8 / 10) by (nonlinear_arith)
        requires
            100 <= spec_estimated_memory_ratio_permille(now_secs) <= 800,
    ;
}

} // verus!
