//! Version detection: maps an AMD GPU model name to the profiling-API
//! revision expected to work for that hardware generation.
//!
//! Classification is substring matching of the lowercased model name
//! against known generation tokens.  Names that match no modern pattern
//! fall back to the legacy revision.  Results are memoized per model
//! name so a name is scanned at most once.

use vstd::prelude::*;
use crate::GpuPerfApiVersion;
use crate::strutil::{contains_seq, lower_seq, str_contains_lower};

verus! {

/// The model name (lowercased) names a generation supported by the
/// modern (4.1) revision.
pub open spec fn spec_is_gpa_41_supported(l: Seq<char>) -> bool {
    ||| contains_seq(l, "rx 90"@)
    ||| contains_seq(l, "rx 7"@)
    ||| contains_seq(l, "rx 6"@)
    ||| (contains_seq(l, "rx 5"@) && (contains_seq(l, "5300"@) || contains_seq(l, "5400"@)
        || contains_seq(l, "5500"@) || contains_seq(l, "5600"@) || contains_seq(l, "5700"@)))
    ||| (contains_seq(l, "radeon"@) && contains_seq(l, "ai"@))
}

/// The model name (lowercased) names a generation supported by the
/// legacy (3.17) revision.
pub open spec fn spec_is_gpa_317_supported(l: Seq<char>) -> bool {
    ||| contains_seq(l, "vega"@)
    ||| (contains_seq(l, "rx 5"@)
        && !contains_seq(l, "5300"@)
        && !contains_seq(l, "5400"@)
        && !contains_seq(l, "5500"@)
        && !contains_seq(l, "5600"@)
        && !contains_seq(l, "5700"@))
    ||| contains_seq(l, "rx 4"@)
    ||| contains_seq(l, "fury"@)
    ||| contains_seq(l, "nano"@)
    ||| contains_seq(l, "pro duo"@)
    ||| (contains_seq(l, "wx"@) && contains_seq(l, "radeon"@))
    ||| ((contains_seq(l, "r7"@) || contains_seq(l, "r5"@)) && contains_seq(l, "3"@))
    ||| ((contains_seq(l, "r7"@) || contains_seq(l, "r5"@)) && contains_seq(l, "2"@))
    ||| (contains_seq(l, "amd"@) && contains_seq(l, "radeon"@) && contains_seq(l, "graphics"@))
}

/// The revision chosen for a model name: modern where a modern pattern
/// matches, otherwise legacy (the default for unknown models too).
pub open spec fn spec_version_for(name: Seq<char>) -> GpuPerfApiVersion {
    if spec_is_gpa_41_supported(lower_seq(name)) {
        GpuPerfApiVersion::V4_1
    } else if spec_is_gpa_317_supported(lower_seq(name)) {
        GpuPerfApiVersion::V3_17
    } else {
        GpuPerfApiVersion::V3_17
    }
}

/// Detector with a model-name-to-revision memo, so the substring scan
/// runs at most once per name.
pub struct AmdVersionDetector {
    pub version_cache: Vec<(String, GpuPerfApiVersion)>,
}

impl AmdVersionDetector {
    /// Every cached revision agrees with a fresh scan of its name.
    pub open spec fn wf(self) -> bool {
        forall|i: int|
            0 <= i < self.version_cache@.len() ==> #[trigger] self.version_cache@[i].1
                == spec_version_for(self.version_cache@[i].0@)
    }

    /// The memo holds an entry for `name`.
    pub open spec fn cache_has(self, name: Seq<char>) -> bool {
        exists|i: int|
            0 <= i < self.version_cache@.len() && #[trigger] self.version_cache@[i].0@ == name
    }

    pub open spec fn cache_view(self) -> Seq<(String, GpuPerfApiVersion)> {
        self.version_cache@
    }

    pub fn new() -> (d: Self)
        ensures
            d.wf(),
            d.cache_view().len() == 0,
    {
        AmdVersionDetector { version_cache: Vec::new() }
    }

    /// Revision for `gpu_name`, memoized: a cache hit returns the
    /// stored revision and leaves the detector untouched; a miss scans
    /// the name once and records the result.
    pub fn detect_version_for_gpu(&mut self, gpu_name: &str) -> (v: GpuPerfApiVersion)
        requires
            old(self).wf(),
        ensures
            v == spec_version_for(gpu_name@),
            final(self).wf(),
            final(self).cache_has(gpu_name@),
            old(self).cache_has(gpu_name@) ==> final(self).cache_view() == old(self).cache_view(),
    {
        let key: String = gpu_name.to_owned();
        let n = self.version_cache.len();
        let mut i: usize = 0;
        while i < n
            invariant
                self.wf(),
                n == self.version_cache@.len(),
                key@ == gpu_name@,
                i <= n,
                forall|k: int| 0 <= k < i ==> #[trigger] self.version_cache@[k].0@ != gpu_name@,
            decreases n - i,
        {
            let entry = &self.version_cache[i];
            if entry.0 == key {
                return entry.1;
            }
            i += 1;
        }
        assert(!old(self).cache_has(gpu_name@));
        let version = self.determine_version_from_name(gpu_name);
        self.version_cache.push((key, version));
        assert(self.cache_has(gpu_name@)) by {
            assert(self.version_cache@[self.version_cache@.len() - 1].0@ == gpu_name@);
        }
        version
    }

    /// One full scan of a model name, without the memo.
    pub fn determine_version_from_name(&self, gpu_name: &str) -> (v: GpuPerfApiVersion)
        ensures
            v == spec_version_for(gpu_name@),
    {
        if self.is_gpa_41_supported(gpu_name) {
            GpuPerfApiVersion::V4_1
        } else if self.is_gpa_317_supported(gpu_name) {
            GpuPerfApiVersion::V3_17
        } else {
            // Unclear or unknown AMD models default to the legacy path.
            GpuPerfApiVersion::V3_17
        }
    }

    /// Whether the model name matches a modern-generation pattern.
    pub fn is_gpa_41_supported(&self, gpu_name: &str) -> (r: bool)
        ensures
            r == spec_is_gpa_41_supported(lower_seq(gpu_name@)),
    {
        if str_contains_lower(gpu_name, "rx 90") {
            return true;
        }
        if str_contains_lower(gpu_name, "rx 7") {
            return true;
        }
        if str_contains_lower(gpu_name, "rx 6") {
            return true;
        }
        if str_contains_lower(gpu_name, "rx 5") && (str_contains_lower(gpu_name, "5300")
            || str_contains_lower(gpu_name, "5400") || str_contains_lower(gpu_name, "5500")
            || str_contains_lower(gpu_name, "5600") || str_contains_lower(gpu_name, "5700")) {
            return true;
        }
        if str_contains_lower(gpu_name, "radeon") && str_contains_lower(gpu_name, "ai") {
            return true;
        }
        false
    }

    /// Whether the model name matches a legacy-generation pattern.
    pub fn is_gpa_317_supported(&self, gpu_name: &str) -> (r: bool)
        ensures
            r == spec_is_gpa_317_supported(lower_seq(gpu_name@)),
    {
        if str_contains_lower(gpu_name, "vega") {
            return true;
        }
        if str_contains_lower(gpu_name, "rx 5") && !str_contains_lower(gpu_name, "5300")
            && !str_contains_lower(gpu_name, "5400") && !str_contains_lower(gpu_name, "5500")
            && !str_contains_lower(gpu_name, "5600") && !str_contains_lower(gpu_name, "5700") {
            return true;
        }
        if str_contains_lower(gpu_name, "rx 4") {
            return true;
        }
        if str_contains_lower(gpu_name, "fury") {
            return true;
        }
        if str_contains_lower(gpu_name, "nano") {
            return true;
        }
        if str_contains_lower(gpu_name, "pro duo") {
            return true;
        }
        if str_contains_lower(gpu_name, "wx") && str_contains_lower(gpu_name, "radeon") {
            return true;
        }
        if (str_contains_lower(gpu_name, "r7") || str_contains_lower(gpu_name, "r5"))
            && str_contains_lower(gpu_name, "3") {
            return true;
        }
        if (str_contains_lower(gpu_name, "r7") || str_contains_lower(gpu_name, "r5"))
            && str_contains_lower(gpu_name, "2") {
            return true;
        }
        if str_contains_lower(gpu_name, "amd") && str_contains_lower(gpu_name, "radeon")
            && str_contains_lower(gpu_name, "graphics") {
            return true;
        }
        false
    }

    /// Human-readable name of a revision.
    pub fn get_version_name(version: GpuPerfApiVersion) -> (r: &'static str)
        ensures
            version is V4_1 ==> r@ == "GPUPerfAPI 4.1"@,
            version is V3_17 ==> r@ == "GPUPerfAPI 3.17"@,
    {
        match version {
            GpuPerfApiVersion::V4_1 => "GPUPerfAPI 4.1",
            GpuPerfApiVersion::V3_17 => "GPUPerfAPI 3.17",
        }
    }
}

/// Version detection is idempotent and the memo is consistent with it:
/// any cached entry holds exactly the revision a fresh scan of its name
/// would produce, so a repeated call with the same name returns the
/// same revision whether it is answered from the memo or by scanning.
pub proof fn lemma_detection_idempotent(d: AmdVersionDetector, name: Seq<char>, i: int)
    requires
        d.wf(),
        0 <= i < d.cache_view().len(),
        d.cache_view()[i].0@ == name,
    ensures
        d.cache_view()[i].1 == spec_version_for(name),
{
}

} // verus!
