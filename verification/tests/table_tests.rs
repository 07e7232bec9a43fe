use gpa_monitor::decode::{clamp_temperature_milli, clamp_utilization_milli, decode_sample, DecodedSample};
use gpa_monitor::counters::CounterCategory;
use gpa_monitor::status::GpaStatus;
use gpa_monitor::table::{classify_negotiation, negotiate_table, GpaFunctionTable, NegotiationOutcome, OpsAvailability};
use gpa_monitor::types::GpaResultType;

fn table() -> GpaFunctionTable {
    GpaFunctionTable { major_version: 3, minor_version: 17, ops: OpsAvailability::empty() }
}

#[test]
fn test_negotiation_classification() {
    assert_eq!(classify_negotiation(GpaStatus::Success), NegotiationOutcome::Populated);
    assert_eq!(
        classify_negotiation(GpaStatus::CommandListNotClosed),
        NegotiationOutcome::KnownQuirk
    );
    assert_eq!(classify_negotiation(GpaStatus::GenericError), NegotiationOutcome::Failed);
    assert_eq!(classify_negotiation(GpaStatus::InvalidParameter), NegotiationOutcome::Failed);
}

#[test]
fn test_negotiate_table_presence() {
    assert_eq!(negotiate_table(GpaStatus::Success, table()), Some(table()));
    assert_eq!(negotiate_table(GpaStatus::CommandListNotClosed, table()), None);
    assert_eq!(negotiate_table(GpaStatus::GenericError, table()), None);
}

#[test]
fn test_decode_utilization() {
    assert_eq!(
        decode_sample(CounterCategory::Utilization, GpaResultType::Uint64, 37),
        DecodedSample::Milli(37000)
    );
    assert_eq!(
        decode_sample(CounterCategory::Utilization, GpaResultType::Uint64, 400),
        DecodedSample::Milli(100000)
    );
    assert_eq!(
        decode_sample(CounterCategory::Utilization, GpaResultType::Float64, 0x4039000000000000),
        DecodedSample::FloatBits(0x4039000000000000)
    );
    assert_eq!(
        decode_sample(CounterCategory::Utilization, GpaResultType::Bool, 1),
        DecodedSample::Unsupported
    );
}

#[test]
fn test_decode_temperature_heuristic() {
    // Over a thousand: already milli-degrees.
    assert_eq!(
        decode_sample(CounterCategory::Temperature, GpaResultType::Uint64, 61500),
        DecodedSample::Milli(61500)
    );
    // A small value is whole degrees.
    assert_eq!(
        decode_sample(CounterCategory::Temperature, GpaResultType::Uint64, 61),
        DecodedSample::Milli(61000)
    );
    // Implausible readings clamp at 150 degrees.
    assert_eq!(
        decode_sample(CounterCategory::Temperature, GpaResultType::Uint64, 9999999),
        DecodedSample::Milli(150000)
    );
}

#[test]
fn test_decode_memory() {
    assert_eq!(
        decode_sample(CounterCategory::MemoryUsed, GpaResultType::Uint64, 1073741824),
        DecodedSample::Bytes(1073741824)
    );
    assert_eq!(
        decode_sample(CounterCategory::MemoryTotal, GpaResultType::Uint64, 0),
        DecodedSample::Bytes(0)
    );
}

#[test]
fn test_reading_clamps() {
    assert_eq!(clamp_utilization_milli(99000), 99000);
    assert_eq!(clamp_utilization_milli(250000), 100000);
    assert_eq!(clamp_temperature_milli(45000), 45000);
    assert_eq!(clamp_temperature_milli(400000), 150000);
}
