//! Function-table negotiation.  The vendor library fills a structure of
//! optional function pointers through a single entry point; this module
//! models the table as per-operation availability flags and classifies
//! the negotiation status.  No non-success status is fatal: the monitor
//! always constructs, at worst with no table, and every table-dependent
//! operation must check availability before use.

use vstd::prelude::*;
use crate::status::GpaStatus;

verus! {

/// Which protocol operations the negotiated table offers.  Absence
/// means "operation unsupported on this revision/build", not an error.
#[derive(Debug, Clone, Copy, PartialEq, Eq, Structural)]
pub struct OpsAvailability {
    pub open_context: bool,
    pub close_context: bool,
    pub get_device_count: bool,
    pub create_session: bool,
    pub delete_session: bool,
    pub begin_session: bool,
    pub end_session: bool,
    pub begin_sample: bool,
    pub end_sample: bool,
    pub is_session_complete: bool,
    pub get_sample_result: bool,
    pub get_num_counters: bool,
    pub get_counter_name: bool,
    pub enable_counter: bool,
}

impl OpsAvailability {
    /// A table with every slot absent, as it stands before negotiation.
    pub fn empty() -> (r: Self)
        ensures
            r == (OpsAvailability {
                open_context: false,
                close_context: false,
                get_device_count: false,
                create_session: false,
                delete_session: false,
                begin_session: false,
                end_session: false,
                begin_sample: false,
                end_sample: false,
                is_session_complete: false,
                get_sample_result: false,
                get_num_counters: false,
                get_counter_name: false,
                enable_counter: false,
            }),
    {
        OpsAvailability {
            open_context: false,
            close_context: false,
            get_device_count: false,
            create_session: false,
            delete_session: false,
            begin_session: false,
            end_session: false,
            begin_sample: false,
            end_sample: false,
            is_session_complete: false,
            get_sample_result: false,
            get_num_counters: false,
            get_counter_name: false,
            enable_counter: false,
        }
    }

    /// Every slot needed for one full sampling pass is present.
    pub open spec fn supports_sampling(self) -> bool {
        &&& self.begin_session
        &&& self.end_session
        &&& self.begin_sample
        &&& self.end_sample
        &&& self.is_session_complete
        &&& self.get_sample_result
        &&& self.enable_counter
    }
}

/// The negotiated function table: its reported version and which
/// operations it populated.  Filled once at negotiation; read-only
/// thereafter.
#[derive(Debug, Clone, Copy, PartialEq, Eq, Structural)]
pub struct GpaFunctionTable {
    pub major_version: u32,
    pub minor_version: u32,
    pub ops: OpsAvailability,
}

/// The three outcomes negotiation distinguishes.
#[derive(Debug, Clone, Copy, PartialEq, Eq, Structural)]
pub enum NegotiationOutcome {
    /// The table was populated and may be used.
    Populated,
    /// The known, recoverable "command list not closed" vendor quirk:
    /// treated exactly like "no table available", never as an error.
    KnownQuirk,
    /// Any other non-success status: logged, table left absent.
    Failed,
}

/// Classification of a negotiation status.
pub open spec fn spec_classify_negotiation(status: GpaStatus) -> NegotiationOutcome {
    if status is Success {
        NegotiationOutcome::Populated
    } else if status is CommandListNotClosed {
        NegotiationOutcome::KnownQuirk
    } else {
        NegotiationOutcome::Failed
    }
}

pub fn classify_negotiation(status: GpaStatus) -> (o: NegotiationOutcome)
    ensures
        o == spec_classify_negotiation(status),
{
    if status.is_success() {
        NegotiationOutcome::Populated
    } else if status.is_command_list_quirk() {
        NegotiationOutcome::KnownQuirk
    } else {
        NegotiationOutcome::Failed
    }
}

/// The table the monitor keeps after negotiation: the populated table
/// on success, absent on every other status.  This is a total function
/// of the status — negotiation failure never fails construction.
pub fn negotiate_table(status: GpaStatus, table: GpaFunctionTable) -> (r: Option<GpaFunctionTable>)
    ensures
        status is Success ==> r == Some(table),
        !(status is Success) ==> r is None,
{
    if status.is_success() {
        Some(table)
    } else {
        None
    }
}

} // verus!
