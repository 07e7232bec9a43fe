use gpa_monitor::status::GpaStatus;
use gpa_monitor::types::{
    GpaContextSampleTypeFlags, GpaLoggingType, GpaOpenContextFlags, GpaResultType,
    GpaSessionSampleType,
};

#[test]
fn test_context_flags() {
    let flags = GpaOpenContextFlags::enable_hardware_counters();
    assert_eq!(flags.bits, 0x00000001);
}

#[test]
fn test_context_flag_values() {
    assert_eq!(GpaOpenContextFlags::none().bits, 0);
    assert_eq!(GpaOpenContextFlags::enable_software_counters().bits, 0x2);
    assert_eq!(GpaContextSampleTypeFlags::none().bits, 0);
    assert_eq!(GpaContextSampleTypeFlags::discrete_counter().bits, 0x1);
    assert_eq!(GpaContextSampleTypeFlags::cumulative_counter().bits, 0x2);
    assert_eq!(GpaContextSampleTypeFlags::software().bits, 0x4);
}

#[test]
fn test_status_code_values() {
    assert_eq!(GpaStatus::Success.code(), 0);
    assert_eq!(GpaStatus::GenericError.code(), -1);
    assert_eq!(GpaStatus::CommandListNotClosed.code(), -29);
    assert_eq!(GpaStatus::ErrorGpaAlreadyInitialized.code(), -100);
    assert_eq!(GpaStatus::ErrorHardwareNotSupported.code(), -101);
    assert_eq!(GpaStatus::UnexpectedCounterNotSupportedLegacy.code(), -318);
    assert_eq!(GpaStatus::UnknownError.code(), -999);
}

#[test]
fn test_status_from_code() {
    assert_eq!(GpaStatus::from_code(0), GpaStatus::Success);
    assert_eq!(GpaStatus::from_code(-29), GpaStatus::CommandListNotClosed);
    assert_eq!(GpaStatus::from_code(-14), GpaStatus::CounterNotFound);
    assert_eq!(GpaStatus::from_code(-318), GpaStatus::UnexpectedCounterNotSupportedLegacy);
    // A code outside the taxonomy maps to the unknown-error status.
    assert_eq!(GpaStatus::from_code(12345), GpaStatus::UnknownError);
    assert_eq!(GpaStatus::from_code(-60), GpaStatus::UnknownError);
}

#[test]
fn test_status_round_trip() {
    let samples = [
        GpaStatus::Success,
        GpaStatus::InvalidParameter,
        GpaStatus::SessionNotStarted,
        GpaStatus::CommandListNotClosed,
        GpaStatus::UnexpectedCounterResultNumCounters,
        GpaStatus::UnknownError,
    ];
    for status in samples {
        assert_eq!(GpaStatus::from_code(status.code()), status);
    }
}

#[test]
fn test_status_predicates() {
    assert!(GpaStatus::Success.is_success());
    assert!(!GpaStatus::GenericError.is_success());
    assert!(GpaStatus::CommandListNotClosed.is_command_list_quirk());
    assert!(!GpaStatus::Success.is_command_list_quirk());
}

#[test]
fn test_sample_type_codes() {
    assert_eq!(GpaSessionSampleType::DiscreteCounter.code(), 0);
    assert_eq!(GpaSessionSampleType::CumulativeCounter.code(), 1);
    assert_eq!(GpaSessionSampleType::Software.code(), 2);
}

#[test]
fn test_logging_type_from_code() {
    assert_eq!(GpaLoggingType::from_code(0), GpaLoggingType::Error);
    assert_eq!(GpaLoggingType::from_code(1), GpaLoggingType::Warning);
    assert_eq!(GpaLoggingType::from_code(2), GpaLoggingType::Message);
    assert_eq!(GpaLoggingType::from_code(3), GpaLoggingType::Trace);
    assert_eq!(GpaLoggingType::from_code(99), GpaLoggingType::Trace);
}

#[test]
fn test_result_type_from_code() {
    assert_eq!(GpaResultType::from_code(0), Some(GpaResultType::Bool));
    assert_eq!(GpaResultType::from_code(3), Some(GpaResultType::Float64));
    assert_eq!(GpaResultType::from_code(4), Some(GpaResultType::Uint64));
    assert_eq!(GpaResultType::from_code(6), None);
}
