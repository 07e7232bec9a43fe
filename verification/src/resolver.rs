//! Dynamic-library resolution strategy: the ordered candidate list of
//! file names tried for each API revision (an assets directory at
//! several relative nesting depths first, then bare system-resolved
//! names), and the first-success-wins selection over load outcomes.
//!
//! The host program attempts the actual loads in order and reports one
//! boolean outcome per candidate.

use vstd::prelude::*;
use crate::GpuPerfApiVersion;
use crate::types::{GpaError, GpaResult};

verus! {

/// Platform whose library file-name conventions apply.
#[derive(Debug, Clone, Copy, PartialEq, Eq, Structural)]
pub enum TargetOs {
    Windows,
    Linux,
}

/// The ordered candidate list for a revision on a platform: asset
/// directories at increasing nesting depths first, bare names last.
pub open spec fn spec_library_names(version: GpuPerfApiVersion, os: TargetOs) -> Seq<Seq<char>> {
    match (version, os) {
        (GpuPerfApiVersion::V4_1, TargetOs::Windows) => seq![
            "assets/GPUPerfAPIDX12-x64.dll"@,
            "assets/GPUPerfAPIDX11-x64.dll"@,
            "assets/GPUPerfAPIVK-x64.dll"@,
            "../assets/GPUPerfAPIDX12-x64.dll"@,
            "../assets/GPUPerfAPIDX11-x64.dll"@,
            "../assets/GPUPerfAPIVK-x64.dll"@,
            "../../assets/GPUPerfAPIDX12-x64.dll"@,
            "../../assets/GPUPerfAPIDX11-x64.dll"@,
            "../../assets/GPUPerfAPIVK-x64.dll"@,
            "../../../assets/GPUPerfAPIDX12-x64.dll"@,
            "../../../assets/GPUPerfAPIDX11-x64.dll"@,
            "../../../assets/GPUPerfAPIVK-x64.dll"@,
            "GPUPerfAPIDX12-x64.dll"@,
            "GPUPerfAPIDX11-x64.dll"@,
            "GPUPerfAPIVK-x64.dll"@,
            "gpu_perf_api_dx12.dll"@,
            "gpu_perf_api_dx11.dll"@,
            "gpu_perf_api_vk.dll"@,
        ],
        (GpuPerfApiVersion::V3_17, TargetOs::Windows) => seq![
            "assets/3GPUPerfAPIDX11-x64.dll"@,
            "assets/3GPUPerfAPIVK-x64.dll"@,
            "../assets/3GPUPerfAPIDX11-x64.dll"@,
            "../assets/3GPUPerfAPIVK-x64.dll"@,
            "../../assets/3GPUPerfAPIDX11-x64.dll"@,
            "../../assets/3GPUPerfAPIVK-x64.dll"@,
            "../../../assets/3GPUPerfAPIDX11-x64.dll"@,
            "../../../assets/3GPUPerfAPIVK-x64.dll"@,
            "3GPUPerfAPIDX11-x64.dll"@,
            "3GPUPerfAPIVK-x64.dll"@,
            "GPUPerfAPIDX11-x64.dll"@,
            "GPUPerfAPIVK-x64.dll"@,
            "gpu_perf_api_dx11.dll"@,
            "gpu_perf_api_vk_3.17.dll"@,
        ],
        (GpuPerfApiVersion::V4_1, TargetOs::Linux) => seq![
            "assets/libGPUPerfAPIVK-x64.so"@,
            "../assets/libGPUPerfAPIVK-x64.so"@,
            "../../assets/libGPUPerfAPIVK-x64.so"@,
            "../../../assets/libGPUPerfAPIVK-x64.so"@,
            "libGPUPerfAPIVK-x64.so"@,
            "libgpu_perf_api_vk.so"@,
        ],
        (GpuPerfApiVersion::V3_17, TargetOs::Linux) => seq![
            "assets/3libGPUPerfAPIVK-x64.so"@,
            "../assets/3libGPUPerfAPIVK-x64.so"@,
            "../../assets/3libGPUPerfAPIVK-x64.so"@,
            "../../../assets/3libGPUPerfAPIVK-x64.so"@,
            "3libGPUPerfAPIVK-x64.so"@,
            "libgpu_perf_api_vk_3.17.so"@,
        ],
    }
}

/// The ordered candidate library names for a revision on a platform.
pub fn get_library_names(version: GpuPerfApiVersion, os: TargetOs) -> (names: Vec<String>)
    ensures
        names@.map_values(|s: String| s@) == spec_library_names(version, os),
{
    let mut names: Vec<String> = Vec::new();
    match (version, os) {
        (GpuPerfApiVersion::V4_1, TargetOs::Windows) => {
            names.push("assets/GPUPerfAPIDX12-x64.dll".to_owned());
            names.push("assets/GPUPerfAPIDX11-x64.dll".to_owned());
            names.push("assets/GPUPerfAPIVK-x64.dll".to_owned());
            names.push("../assets/GPUPerfAPIDX12-x64.dll".to_owned());
            names.push("../assets/GPUPerfAPIDX11-x64.dll".to_owned());
            names.push("../assets/GPUPerfAPIVK-x64.dll".to_owned());
            names.push("../../assets/GPUPerfAPIDX12-x64.dll".to_owned());
            names.push("../../assets/GPUPerfAPIDX11-x64.dll".to_owned());
            names.push("../../assets/GPUPerfAPIVK-x64.dll".to_owned());
            names.push("../../../assets/GPUPerfAPIDX12-x64.dll".to_owned());
            names.push("../../../assets/GPUPerfAPIDX11-x64.dll".to_owned());
            names.push("../../../assets/GPUPerfAPIVK-x64.dll".to_owned());
            names.push("GPUPerfAPIDX12-x64.dll".to_owned());
            names.push("GPUPerfAPIDX11-x64.dll".to_owned());
            names.push("GPUPerfAPIVK-x64.dll".to_owned());
            names.push("gpu_perf_api_dx12.dll".to_owned());
            names.push("gpu_perf_api_dx11.dll".to_owned());
            names.push("gpu_perf_api_vk.dll".to_owned());
        },
        (GpuPerfApiVersion::V3_17, TargetOs::Windows) => {
            names.push("assets/3GPUPerfAPIDX11-x64.dll".to_owned());
            names.push("assets/3GPUPerfAPIVK-x64.dll".to_owned());
            names.push("../assets/3GPUPerfAPIDX11-x64.dll".to_owned());
            names.push("../assets/3GPUPerfAPIVK-x64.dll".to_owned());
            names.push("../../assets/3GPUPerfAPIDX11-x64.dll".to_owned());
            names.push("../../assets/3GPUPerfAPIVK-x64.dll".to_owned());
            names.push("../../../assets/3GPUPerfAPIDX11-x64.dll".to_owned());
            names.push("../../../assets/3GPUPerfAPIVK-x64.dll".to_owned());
            names.push("3GPUPerfAPIDX11-x64.dll".to_owned());
            names.push("3GPUPerfAPIVK-x64.dll".to_owned());
            names.push("GPUPerfAPIDX11-x64.dll".to_owned());
            names.push("GPUPerfAPIVK-x64.dll".to_owned());
            names.push("gpu_perf_api_dx11.dll".to_owned());
            names.push("gpu_perf_api_vk_3.17.dll".to_owned());
        },
        (GpuPerfApiVersion::V4_1, TargetOs::Linux) => {
            names.push("assets/libGPUPerfAPIVK-x64.so".to_owned());
            names.push("../assets/libGPUPerfAPIVK-x64.so".to_owned());
            names.push("../../assets/libGPUPerfAPIVK-x64.so".to_owned());
            names.push("../../../assets/libGPUPerfAPIVK-x64.so".to_owned());
            names.push("libGPUPerfAPIVK-x64.so".to_owned());
            names.push("libgpu_perf_api_vk.so".to_owned());
        },
        (GpuPerfApiVersion::V3_17, TargetOs::Linux) => {
            names.push("assets/3libGPUPerfAPIVK-x64.so".to_owned());
            names.push("../assets/3libGPUPerfAPIVK-x64.so".to_owned());
            names.push("../../assets/3libGPUPerfAPIVK-x64.so".to_owned());
            names.push("../../../assets/3libGPUPerfAPIVK-x64.so".to_owned());
            names.push("3libGPUPerfAPIVK-x64.so".to_owned());
            names.push("libgpu_perf_api_vk_3.17.so".to_owned());
        },
    }
    assert(names@.map_values(|s: String| s@) =~= spec_library_names(version, os));
    names
}

/// Automatic revision choice: the modern revision is preferred, the
/// legacy one is the fallback, and with neither library loadable the
/// whole load fails.
pub fn select_revision(modern_loaded: bool, legacy_loaded: bool) -> (r: GpaResult<
    GpuPerfApiVersion,
>)
    ensures
        modern_loaded ==> r == Ok::<GpuPerfApiVersion, GpaError>(GpuPerfApiVersion::V4_1),
        !modern_loaded && legacy_loaded ==> r == Ok::<GpuPerfApiVersion, GpaError>(
            GpuPerfApiVersion::V3_17,
        ),
        !modern_loaded && !legacy_loaded ==> r == Err::<GpuPerfApiVersion, GpaError>(
            GpaError::LibraryLoad,
        ),
{
    if modern_loaded {
        Ok(GpuPerfApiVersion::V4_1)
    } else if legacy_loaded {
        Ok(GpuPerfApiVersion::V3_17)
    } else {
        Err(GpaError::LibraryLoad)
    }
}

/// `r` names the first `true` in `outcomes`, or is `None` when there is
/// no `true` at all.
pub open spec fn first_success_is(r: Option<usize>, outcomes: Seq<bool>) -> bool {
    match r {
        Some(i) => i < outcomes.len() && outcomes[i as int] && (forall|k: int|
            0 <= k < i ==> !outcomes[k]),
        None => forall|k: int| 0 <= k < outcomes.len() ==> !outcomes[k],
    }
}

/// The index of the first `true` outcome, if any.
pub fn first_success(outcomes: &Vec<bool>) -> (r: Option<usize>)
    ensures
        first_success_is(r, outcomes@),
{
    let mut i: usize = 0;
    while i < outcomes.len()
        invariant
            i <= outcomes@.len(),
            forall|k: int| 0 <= k < i ==> !outcomes@[k],
        decreases outcomes@.len() - i,
    {
        if outcomes[i] {
            return Some(i);
        }
        i += 1;
    }
    None
}

/// First success wins: the index of the first candidate whose load
/// succeeded, or the library-load error when every candidate failed.
/// No partial state is possible: the caller gets either one loaded
/// candidate or the error.
pub fn resolve_library(outcomes: &Vec<bool>) -> (r: GpaResult<usize>)
    ensures
        match r {
            Ok(i) => first_success_is(Some(i), outcomes@),
            Err(e) => e == GpaError::LibraryLoad && first_success_is(None, outcomes@),
        },
{
    match first_success(outcomes) {
        Some(i) => Ok(i),
        None => Err(GpaError::LibraryLoad),
    }
}

} // verus!
