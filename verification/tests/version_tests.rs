use gpa_monitor::version::AmdVersionDetector;
use gpa_monitor::GpuPerfApiVersion;

#[test]
fn test_version_display() {
    assert_eq!(GpuPerfApiVersion::V3_17.as_str(), "3.17");
    assert_eq!(GpuPerfApiVersion::V4_1.as_str(), "4.1");
}

#[test]
fn test_version_detection() {
    let mut detector = AmdVersionDetector::new();

    assert_eq!(
        detector.detect_version_for_gpu("AMD Radeon RX 7900 XTX"),
        GpuPerfApiVersion::V4_1
    );
    assert_eq!(
        detector.detect_version_for_gpu("AMD Radeon RX 7600 XT"),
        GpuPerfApiVersion::V4_1
    );

    assert_eq!(
        detector.detect_version_for_gpu("AMD Radeon RX 6950 XT"),
        GpuPerfApiVersion::V4_1
    );
    assert_eq!(
        detector.detect_version_for_gpu("AMD Radeon RX 6600"),
        GpuPerfApiVersion::V4_1
    );

    assert_eq!(
        detector.detect_version_for_gpu("AMD Radeon RX 5700 XT"),
        GpuPerfApiVersion::V4_1
    );

    assert_eq!(
        detector.detect_version_for_gpu("AMD Radeon RX Vega 64"),
        GpuPerfApiVersion::V3_17
    );
    assert_eq!(
        detector.detect_version_for_gpu("AMD Radeon Vega Frontier Edition"),
        GpuPerfApiVersion::V3_17
    );

    assert_eq!(
        detector.detect_version_for_gpu("AMD Radeon RX 580"),
        GpuPerfApiVersion::V3_17
    );
    assert_eq!(
        detector.detect_version_for_gpu("AMD Radeon RX 590"),
        GpuPerfApiVersion::V3_17
    );

    assert_eq!(
        detector.detect_version_for_gpu("AMD Radeon RX 480"),
        GpuPerfApiVersion::V3_17
    );
    assert_eq!(
        detector.detect_version_for_gpu("AMD Radeon RX 470"),
        GpuPerfApiVersion::V3_17
    );

    assert_eq!(
        detector.detect_version_for_gpu("AMD Radeon R9 Fury X"),
        GpuPerfApiVersion::V3_17
    );

    assert_eq!(
        detector.detect_version_for_gpu("AMD Radeon Pro WX 9100"),
        GpuPerfApiVersion::V3_17
    );

    assert_eq!(
        detector.detect_version_for_gpu("AMD Radeon(TM) Graphics"),
        GpuPerfApiVersion::V3_17
    );
    assert_eq!(
        detector.detect_version_for_gpu("AMD Graphics"),
        GpuPerfApiVersion::V3_17
    );
}

#[test]
fn test_version_names() {
    assert_eq!(
        AmdVersionDetector::get_version_name(GpuPerfApiVersion::V4_1),
        "GPUPerfAPI 4.1"
    );
    assert_eq!(
        AmdVersionDetector::get_version_name(GpuPerfApiVersion::V3_17),
        "GPUPerfAPI 3.17"
    );
}

#[test]
fn test_detection_is_memoized() {
    let mut detector = AmdVersionDetector::new();
    let first = detector.detect_version_for_gpu("AMD Radeon RX 6800");
    assert_eq!(detector.version_cache.len(), 1);
    let second = detector.detect_version_for_gpu("AMD Radeon RX 6800");
    // Idempotent, and the second call was answered from the memo.
    assert_eq!(first, second);
    assert_eq!(detector.version_cache.len(), 1);
    assert_eq!(first, GpuPerfApiVersion::V4_1);
}

#[test]
fn test_unrecognized_name_defaults_to_legacy() {
    let mut detector = AmdVersionDetector::new();
    assert_eq!(
        detector.detect_version_for_gpu("Some Unknown Device"),
        GpuPerfApiVersion::V3_17
    );
    assert_eq!(detector.detect_version_for_gpu(""), GpuPerfApiVersion::V3_17);
}

#[test]
fn test_detection_is_case_insensitive() {
    let mut detector = AmdVersionDetector::new();
    assert_eq!(
        detector.detect_version_for_gpu("amd radeon rx 7900 xtx"),
        GpuPerfApiVersion::V4_1
    );
    assert_eq!(
        detector.detect_version_for_gpu("AMD RADEON RX VEGA 64"),
        GpuPerfApiVersion::V3_17
    );
}

#[test]
fn test_rx_5000_split() {
    let mut detector = AmdVersionDetector::new();
    // RX 5000-generation numbers use the modern revision...
    assert_eq!(
        detector.detect_version_for_gpu("AMD Radeon RX 5500 XT"),
        GpuPerfApiVersion::V4_1
    );
    // ...while RX 500-series cards stay on the legacy revision.
    assert_eq!(
        detector.detect_version_for_gpu("AMD Radeon RX 570"),
        GpuPerfApiVersion::V3_17
    );
}
