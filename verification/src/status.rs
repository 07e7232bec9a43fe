//! The vendor API's status-code taxonomy: success plus the fixed set of
//! failure codes, with the integer code conversions the wire protocol
//! uses.  Only success and the "command list not closed" quirk are treated
//! specially anywhere; every other code is carried for diagnostics.

use vstd::prelude::*;

verus! {

/// Status codes returned by the vendor API.
#[derive(Debug, Clone, Copy, PartialEq, Eq, Structural)]
pub enum GpaStatus {
    Success,
    GenericError,
    InvalidParameter,
    ContextNotOpen,
    ContextAlreadyOpen,
    ContextAlreadyCounterEnabled,
    SessionAlreadyOpened,
    SessionNotOpened,
    SessionAlreadyStarted,
    SessionNotStarted,
    SampleAlreadyStarted,
    SampleNotStarted,
    SampleAlreadyEnded,
    SampleNotEnded,
    CounterNotFound,
    CounterAlreadyEnabled,
    CounterNotEnabled,
    CounterResultNotAvailable,
    CounterResultNotReady,
    CounterNotSupported,
    DeviceNotSupported,
    InvalidApiType,
    InvalidCounter,
    InvalidSession,
    InvalidSample,
    InvalidContext,
    InvalidDevice,
    InvalidCommandList,
    CommandListAlreadyClosed,
    CommandListNotClosed,
    InvalidPass,
    PassAlreadyEnded,
    PassNotEnded,
    InvalidSampleType,
    InvalidContextFlags,
    UnexpectedApiType,
    UnexpectedCounterType,
    UnexpectedDataType,
    UnexpectedUsageType,
    UnexpectedResultType,
    UnexpectedUuid,
    UnexpectedDeviceId,
    UnexpectedRevisionId,
    UnexpectedVendorId,
    UnexpectedGpuIndex,
    UnexpectedNumAdapters,
    UnexpectedNumCounters,
    UnexpectedCounterIndex,
    UnexpectedCounterResultIndex,
    UnexpectedCounterResultCount,
    UnexpectedCounterResultSize,
    UnexpectedCounterResultType,
    UnexpectedCounterResultUuid,
    UnexpectedCounterResultDeviceId,
    UnexpectedCounterResultRevisionId,
    UnexpectedCounterResultVendorId,
    UnexpectedCounterResultGpuIndex,
    UnexpectedCounterResultNumAdapters,
    UnexpectedCounterResultNumCounters,
    ErrorGpaAlreadyInitialized,
    ErrorHardwareNotSupported,
    UnexpectedCounterNotSupportedLegacy,
    UnknownError,
}

/// The integer code the vendor ABI assigns to each status.
pub open spec fn spec_status_code(s: GpaStatus) -> int {
    match s {
        GpaStatus::Success => 0,
        GpaStatus::GenericError => -1,
        GpaStatus::InvalidParameter => -2,
        GpaStatus::ContextNotOpen => -3,
        GpaStatus::ContextAlreadyOpen => -4,
        GpaStatus::ContextAlreadyCounterEnabled => -5,
        GpaStatus::SessionAlreadyOpened => -6,
        GpaStatus::SessionNotOpened => -7,
        GpaStatus::SessionAlreadyStarted => -8,
        GpaStatus::SessionNotStarted => -9,
        GpaStatus::SampleAlreadyStarted => -10,
        GpaStatus::SampleNotStarted => -11,
        GpaStatus::SampleAlreadyEnded => -12,
        GpaStatus::SampleNotEnded => -13,
        GpaStatus::CounterNotFound => -14,
        GpaStatus::CounterAlreadyEnabled => -15,
        GpaStatus::CounterNotEnabled => -16,
        GpaStatus::CounterResultNotAvailable => -17,
        GpaStatus::CounterResultNotReady => -18,
        GpaStatus::CounterNotSupported => -19,
        GpaStatus::DeviceNotSupported => -20,
        GpaStatus::InvalidApiType => -21,
        GpaStatus::InvalidCounter => -22,
        GpaStatus::InvalidSession => -23,
        GpaStatus::InvalidSample => -24,
        GpaStatus::InvalidContext => -25,
        GpaStatus::InvalidDevice => -26,
        GpaStatus::InvalidCommandList => -27,
        GpaStatus::CommandListAlreadyClosed => -28,
        GpaStatus::CommandListNotClosed => -29,
        GpaStatus::InvalidPass => -30,
        GpaStatus::PassAlreadyEnded => -31,
        GpaStatus::PassNotEnded => -32,
        GpaStatus::InvalidSampleType => -33,
        GpaStatus::InvalidContextFlags => -34,
        GpaStatus::UnexpectedApiType => -35,
        GpaStatus::UnexpectedCounterType => -36,
        GpaStatus::UnexpectedDataType => -37,
        GpaStatus::UnexpectedUsageType => -38,
        GpaStatus::UnexpectedResultType => -39,
        GpaStatus::UnexpectedUuid => -40,
        GpaStatus::UnexpectedDeviceId => -41,
        GpaStatus::UnexpectedRevisionId => -42,
        GpaStatus::UnexpectedVendorId => -43,
        GpaStatus::UnexpectedGpuIndex => -44,
        GpaStatus::UnexpectedNumAdapters => -45,
        GpaStatus::UnexpectedNumCounters => -46,
        GpaStatus::UnexpectedCounterIndex => -47,
        GpaStatus::UnexpectedCounterResultIndex => -48,
        GpaStatus::UnexpectedCounterResultCount => -49,
        GpaStatus::UnexpectedCounterResultSize => -50,
        GpaStatus::UnexpectedCounterResultType => -51,
        GpaStatus::UnexpectedCounterResultUuid => -52,
        GpaStatus::UnexpectedCounterResultDeviceId => -53,
        GpaStatus::UnexpectedCounterResultRevisionId => -54,
        GpaStatus::UnexpectedCounterResultVendorId => -55,
        GpaStatus::UnexpectedCounterResultGpuIndex => -56,
        GpaStatus::UnexpectedCounterResultNumAdapters => -57,
        GpaStatus::UnexpectedCounterResultNumCounters => -58,
        GpaStatus::ErrorGpaAlreadyInitialized => -100,
        GpaStatus::ErrorHardwareNotSupported => -101,
        GpaStatus::UnexpectedCounterNotSupportedLegacy => -318,
        GpaStatus::UnknownError => -999,
    }
}

/// The status a raw integer code denotes; codes outside the taxonomy
/// map to `UnknownError`.
pub open spec fn spec_status_from_code(c: int) -> GpaStatus {
    if c == 0 {
        GpaStatus::Success
    } else if c == -1 {
        GpaStatus::GenericError
    } else if c == -2 {
        GpaStatus::InvalidParameter
    } else if c == -3 {
        GpaStatus::ContextNotOpen
    } else if c == -4 {
        GpaStatus::ContextAlreadyOpen
    } else if c == -5 {
        GpaStatus::ContextAlreadyCounterEnabled
    } else if c == -6 {
        GpaStatus::SessionAlreadyOpened
    } else if c == -7 {
        GpaStatus::SessionNotOpened
    } else if c == -8 {
        GpaStatus::SessionAlreadyStarted
    } else if c == -9 {
        GpaStatus::SessionNotStarted
    } else if c == -10 {
        GpaStatus::SampleAlreadyStarted
    } else if c == -11 {
        GpaStatus::SampleNotStarted
    } else if c == -12 {
        GpaStatus::SampleAlreadyEnded
    } else if c == -13 {
        GpaStatus::SampleNotEnded
    } else if c == -14 {
        GpaStatus::CounterNotFound
    } else if c == -15 {
        GpaStatus::CounterAlreadyEnabled
    } else if c == -16 {
        GpaStatus::CounterNotEnabled
    } else if c == -17 {
        GpaStatus::CounterResultNotAvailable
    } else if c == -18 {
        GpaStatus::CounterResultNotReady
    } else if c == -19 {
        GpaStatus::CounterNotSupported
    } else if c == -20 {
        GpaStatus::DeviceNotSupported
    } else if c == -21 {
        GpaStatus::InvalidApiType
    } else if c == -22 {
        GpaStatus::InvalidCounter
    } else if c == -23 {
        GpaStatus::InvalidSession
    } else if c == -24 {
        GpaStatus::InvalidSample
    } else if c == -25 {
        GpaStatus::InvalidContext
    } else if c == -26 {
        GpaStatus::InvalidDevice
    } else if c == -27 {
        GpaStatus::InvalidCommandList
    } else if c == -28 {
        GpaStatus::CommandListAlreadyClosed
    } else if c == -29 {
        GpaStatus::CommandListNotClosed
    } else if c == -30 {
        GpaStatus::InvalidPass
    } else if c == -31 {
        GpaStatus::PassAlreadyEnded
    } else if c == -32 {
        GpaStatus::PassNotEnded
    } else if c == -33 {
        GpaStatus::InvalidSampleType
    } else if c == -34 {
        GpaStatus::InvalidContextFlags
    } else if c == -35 {
        GpaStatus::UnexpectedApiType
    } else if c == -36 {
        GpaStatus::UnexpectedCounterType
    } else if c == -37 {
        GpaStatus::UnexpectedDataType
    } else if c == -38 {
        GpaStatus::UnexpectedUsageType
    } else if c == -39 {
        GpaStatus::UnexpectedResultType
    } else if c == -40 {
        GpaStatus::UnexpectedUuid
    } else if c == -41 {
        GpaStatus::UnexpectedDeviceId
    } else if c == -42 {
        GpaStatus::UnexpectedRevisionId
    } else if c == -43 {
        GpaStatus::UnexpectedVendorId
    } else if c == -44 {
        GpaStatus::UnexpectedGpuIndex
    } else if c == -45 {
        GpaStatus::UnexpectedNumAdapters
    } else if c == -46 {
        GpaStatus::UnexpectedNumCounters
    } else if c == -47 {
        GpaStatus::UnexpectedCounterIndex
    } else if c == -48 {
        GpaStatus::UnexpectedCounterResultIndex
    } else if c == -49 {
        GpaStatus::UnexpectedCounterResultCount
    } else if c == -50 {
        GpaStatus::UnexpectedCounterResultSize
    } else if c == -51 {
        GpaStatus::UnexpectedCounterResultType
    } else if c == -52 {
        GpaStatus::UnexpectedCounterResultUuid
    } else if c == -53 {
        GpaStatus::UnexpectedCounterResultDeviceId
    } else if c == -54 {
        GpaStatus::UnexpectedCounterResultRevisionId
    } else if c == -55 {
        GpaStatus::UnexpectedCounterResultVendorId
    } else if c == -56 {
        GpaStatus::UnexpectedCounterResultGpuIndex
    } else if c == -57 {
        GpaStatus::UnexpectedCounterResultNumAdapters
    } else if c == -58 {
        GpaStatus::UnexpectedCounterResultNumCounters
    } else if c == -100 {
        GpaStatus::ErrorGpaAlreadyInitialized
    } else if c == -101 {
        GpaStatus::ErrorHardwareNotSupported
    } else if c == -318 {
        GpaStatus::UnexpectedCounterNotSupportedLegacy
    } else {
        GpaStatus::UnknownError
    }
}

impl GpaStatus {
    /// The integer code of this status on the vendor ABI.
    pub fn code(self) -> (c: i32)
        ensures
            c == spec_status_code(self),
    {
        match self {
            GpaStatus::Success => 0,
            GpaStatus::GenericError => -1,
            GpaStatus::InvalidParameter => -2,
            GpaStatus::ContextNotOpen => -3,
            GpaStatus::ContextAlreadyOpen => -4,
            GpaStatus::ContextAlreadyCounterEnabled => -5,
            GpaStatus::SessionAlreadyOpened => -6,
            GpaStatus::SessionNotOpened => -7,
            GpaStatus::SessionAlreadyStarted => -8,
            GpaStatus::SessionNotStarted => -9,
            GpaStatus::SampleAlreadyStarted => -10,
            GpaStatus::SampleNotStarted => -11,
            GpaStatus::SampleAlreadyEnded => -12,
            GpaStatus::SampleNotEnded => -13,
            GpaStatus::CounterNotFound => -14,
            GpaStatus::CounterAlreadyEnabled => -15,
            GpaStatus::CounterNotEnabled => -16,
            GpaStatus::CounterResultNotAvailable => -17,
            GpaStatus::CounterResultNotReady => -18,
            GpaStatus::CounterNotSupported => -19,
            GpaStatus::DeviceNotSupported => -20,
            GpaStatus::InvalidApiType => -21,
            GpaStatus::InvalidCounter => -22,
            GpaStatus::InvalidSession => -23,
            GpaStatus::InvalidSample => -24,
            GpaStatus::InvalidContext => -25,
            GpaStatus::InvalidDevice => -26,
            GpaStatus::InvalidCommandList => -27,
            GpaStatus::CommandListAlreadyClosed => -28,
            GpaStatus::CommandListNotClosed => -29,
            GpaStatus::InvalidPass => -30,
            GpaStatus::PassAlreadyEnded => -31,
            GpaStatus::PassNotEnded => -32,
            GpaStatus::InvalidSampleType => -33,
            GpaStatus::InvalidContextFlags => -34,
            GpaStatus::UnexpectedApiType => -35,
            GpaStatus::UnexpectedCounterType => -36,
            GpaStatus::UnexpectedDataType => -37,
            GpaStatus::UnexpectedUsageType => -38,
            GpaStatus::UnexpectedResultType => -39,
            GpaStatus::UnexpectedUuid => -40,
            GpaStatus::UnexpectedDeviceId => -41,
            GpaStatus::UnexpectedRevisionId => -42,
            GpaStatus::UnexpectedVendorId => -43,
            GpaStatus::UnexpectedGpuIndex => -44,
            GpaStatus::UnexpectedNumAdapters => -45,
            GpaStatus::UnexpectedNumCounters => -46,
            GpaStatus::UnexpectedCounterIndex => -47,
            GpaStatus::UnexpectedCounterResultIndex => -48,
            GpaStatus::UnexpectedCounterResultCount => -49,
            GpaStatus::UnexpectedCounterResultSize => -50,
            GpaStatus::UnexpectedCounterResultType => -51,
            GpaStatus::UnexpectedCounterResultUuid => -52,
            GpaStatus::UnexpectedCounterResultDeviceId => -53,
            GpaStatus::UnexpectedCounterResultRevisionId => -54,
            GpaStatus::UnexpectedCounterResultVendorId => -55,
            GpaStatus::UnexpectedCounterResultGpuIndex => -56,
            GpaStatus::UnexpectedCounterResultNumAdapters => -57,
            GpaStatus::UnexpectedCounterResultNumCounters => -58,
            GpaStatus::ErrorGpaAlreadyInitialized => -100,
            GpaStatus::ErrorHardwareNotSupported => -101,
            GpaStatus::UnexpectedCounterNotSupportedLegacy => -318,
            GpaStatus::UnknownError => -999,
        }
    }

    /// The status a raw integer code from the vendor denotes.
    pub fn from_code(c: i32) -> (s: GpaStatus)
        ensures
            s == spec_status_from_code(c as int),
    {
        if c == 0 {
            GpaStatus::Success
        } else if c == -1 {
            GpaStatus::GenericError
        } else if c == -2 {
            GpaStatus::InvalidParameter
        } else if c == -3 {
            GpaStatus::ContextNotOpen
        } else if c == -4 {
            GpaStatus::ContextAlreadyOpen
        } else if c == -5 {
            GpaStatus::ContextAlreadyCounterEnabled
        } else if c == -6 {
            GpaStatus::SessionAlreadyOpened
        } else if c == -7 {
            GpaStatus::SessionNotOpened
        } else if c == -8 {
            GpaStatus::SessionAlreadyStarted
        } else if c == -9 {
            GpaStatus::SessionNotStarted
        } else if c == -10 {
            GpaStatus::SampleAlreadyStarted
        } else if c == -11 {
            GpaStatus::SampleNotStarted
        } else if c == -12 {
            GpaStatus::SampleAlreadyEnded
        } else if c == -13 {
            GpaStatus::SampleNotEnded
        } else if c == -14 {
            GpaStatus::CounterNotFound
        } else if c == -15 {
            GpaStatus::CounterAlreadyEnabled
        } else if c == -16 {
            GpaStatus::CounterNotEnabled
        } else if c == -17 {
            GpaStatus::CounterResultNotAvailable
        } else if c == -18 {
            GpaStatus::CounterResultNotReady
        } else if c == -19 {
            GpaStatus::CounterNotSupported
        } else if c == -20 {
            GpaStatus::DeviceNotSupported
        } else if c == -21 {
            GpaStatus::InvalidApiType
        } else if c == -22 {
            GpaStatus::InvalidCounter
        } else if c == -23 {
            GpaStatus::InvalidSession
        } else if c == -24 {
            GpaStatus::InvalidSample
        } else if c == -25 {
            GpaStatus::InvalidContext
        } else if c == -26 {
            GpaStatus::InvalidDevice
        } else if c == -27 {
            GpaStatus::InvalidCommandList
        } else if c == -28 {
            GpaStatus::CommandListAlreadyClosed
        } else if c == -29 {
            GpaStatus::CommandListNotClosed
        } else if c == -30 {
            GpaStatus::InvalidPass
        } else if c == -31 {
            GpaStatus::PassAlreadyEnded
        } else if c == -32 {
            GpaStatus::PassNotEnded
        } else if c == -33 {
            GpaStatus::InvalidSampleType
        } else if c == -34 {
            GpaStatus::InvalidContextFlags
        } else if c == -35 {
            GpaStatus::UnexpectedApiType
        } else if c == -36 {
            GpaStatus::UnexpectedCounterType
        } else if c == -37 {
            GpaStatus::UnexpectedDataType
        } else if c == -38 {
            GpaStatus::UnexpectedUsageType
        } else if c == -39 {
            GpaStatus::UnexpectedResultType
        } else if c == -40 {
            GpaStatus::UnexpectedUuid
        } else if c == -41 {
            GpaStatus::UnexpectedDeviceId
        } else if c == -42 {
            GpaStatus::UnexpectedRevisionId
        } else if c == -43 {
            GpaStatus::UnexpectedVendorId
        } else if c == -44 {
            GpaStatus::UnexpectedGpuIndex
        } else if c == -45 {
            GpaStatus::UnexpectedNumAdapters
        } else if c == -46 {
            GpaStatus::UnexpectedNumCounters
        } else if c == -47 {
            GpaStatus::UnexpectedCounterIndex
        } else if c == -48 {
            GpaStatus::UnexpectedCounterResultIndex
        } else if c == -49 {
            GpaStatus::UnexpectedCounterResultCount
        } else if c == -50 {
            GpaStatus::UnexpectedCounterResultSize
        } else if c == -51 {
            GpaStatus::UnexpectedCounterResultType
        } else if c == -52 {
            GpaStatus::UnexpectedCounterResultUuid
        } else if c == -53 {
            GpaStatus::UnexpectedCounterResultDeviceId
        } else if c == -54 {
            GpaStatus::UnexpectedCounterResultRevisionId
        } else if c == -55 {
            GpaStatus::UnexpectedCounterResultVendorId
        } else if c == -56 {
            GpaStatus::UnexpectedCounterResultGpuIndex
        } else if c == -57 {
            GpaStatus::UnexpectedCounterResultNumAdapters
        } else if c == -58 {
            GpaStatus::UnexpectedCounterResultNumCounters
        } else if c == -100 {
            GpaStatus::ErrorGpaAlreadyInitialized
        } else if c == -101 {
            GpaStatus::ErrorHardwareNotSupported
        } else if c == -318 {
            GpaStatus::UnexpectedCounterNotSupportedLegacy
        } else {
            GpaStatus::UnknownError
        }
    }

    /// Whether the status reports success.
    pub fn is_success(self) -> (r: bool)
        ensures
            r == (self is Success),
    {
        matches!(self, GpaStatus::Success)
    }

    /// Whether the status is the known, recoverable "command list not
    /// closed" quirk seen during function-table negotiation.
    pub fn is_command_list_quirk(self) -> (r: bool)
        ensures
            r == (self is CommandListNotClosed),
    {
        matches!(self, GpaStatus::CommandListNotClosed)
    }
}

/// Reading a status back from its own integer code yields the status:
/// the code assignment is injective over the taxonomy.
pub proof fn lemma_status_code_round_trip(s: GpaStatus)
    ensures
        spec_status_from_code(spec_status_code(s)) == s,
{
}

} // verus!
