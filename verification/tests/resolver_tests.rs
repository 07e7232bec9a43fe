use gpa_monitor::resolver::{first_success, get_library_names, resolve_library, select_revision, TargetOs};
use gpa_monitor::types::GpaError;
use gpa_monitor::GpuPerfApiVersion;

#[test]
fn test_modern_windows_candidates() {
    let names = get_library_names(GpuPerfApiVersion::V4_1, TargetOs::Windows);
    assert_eq!(names.len(), 18);
    // Asset directories come first, nearest nesting first.
    assert_eq!(names[0], "assets/GPUPerfAPIDX12-x64.dll");
    assert_eq!(names[1], "assets/GPUPerfAPIDX11-x64.dll");
    assert_eq!(names[2], "assets/GPUPerfAPIVK-x64.dll");
    assert_eq!(names[3], "../assets/GPUPerfAPIDX12-x64.dll");
    assert_eq!(names[11], "../../../assets/GPUPerfAPIVK-x64.dll");
    // Bare system-resolved names are the final fallback.
    assert_eq!(names[12], "GPUPerfAPIDX12-x64.dll");
    assert_eq!(names[17], "gpu_perf_api_vk.dll");
}

#[test]
fn test_legacy_windows_candidates() {
    let names = get_library_names(GpuPerfApiVersion::V3_17, TargetOs::Windows);
    assert_eq!(names.len(), 14);
    assert_eq!(names[0], "assets/3GPUPerfAPIDX11-x64.dll");
    assert_eq!(names[1], "assets/3GPUPerfAPIVK-x64.dll");
    assert_eq!(names[8], "3GPUPerfAPIDX11-x64.dll");
    assert_eq!(names[13], "gpu_perf_api_vk_3.17.dll");
}

#[test]
fn test_linux_candidates() {
    let modern = get_library_names(GpuPerfApiVersion::V4_1, TargetOs::Linux);
    assert_eq!(modern.len(), 6);
    assert_eq!(modern[0], "assets/libGPUPerfAPIVK-x64.so");
    assert_eq!(modern[5], "libgpu_perf_api_vk.so");
    let legacy = get_library_names(GpuPerfApiVersion::V3_17, TargetOs::Linux);
    assert_eq!(legacy.len(), 6);
    assert_eq!(legacy[4], "3libGPUPerfAPIVK-x64.so");
}

#[test]
fn test_first_success_wins() {
    assert_eq!(first_success(&vec![false, true, true]), Some(1));
    assert_eq!(first_success(&vec![true, false]), Some(0));
    assert_eq!(first_success(&vec![false, false]), None);
    assert_eq!(first_success(&vec![]), None);
}

#[test]
fn test_resolve_library_outcomes() {
    assert_eq!(resolve_library(&vec![false, false, true]), Ok(2));
    assert_eq!(
        resolve_library(&vec![false, false, false]),
        Err(GpaError::LibraryLoad)
    );
    assert_eq!(resolve_library(&vec![]), Err(GpaError::LibraryLoad));
}

#[test]
fn test_select_revision_prefers_modern() {
    assert_eq!(
        select_revision(true, true),
        Ok(GpuPerfApiVersion::V4_1)
    );
    assert_eq!(
        select_revision(true, false),
        Ok(GpuPerfApiVersion::V4_1)
    );
    assert_eq!(
        select_revision(false, true),
        Ok(GpuPerfApiVersion::V3_17)
    );
    assert_eq!(select_revision(false, false), Err(GpaError::LibraryLoad));
}
