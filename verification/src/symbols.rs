//! Symbol binder: for each logical function of the protocol, the
//! ordered list of historically used export names (Pascal case, snake
//! case, prefixed), and the binding decision over the host program's
//! per-candidate resolution outcomes.  First successful resolution wins
//! per symbol; a missing mandatory symbol fails the whole binding.

use vstd::prelude::*;
use crate::GpuPerfApiVersion;
use crate::resolver::{first_success, first_success_is};
use crate::types::{GpaError, GpaResult};

verus! {

/// The logical functions resolved directly by name.  All other
/// operations come from the negotiated function table.
#[derive(Debug, Clone, Copy, PartialEq, Eq, Structural)]
pub enum LogicalSymbol {
    GetVersion,
    Initialize,
    Destroy,
    GetFuncTable,
}

/// Export-name candidates for a logical symbol, in the order they are
/// tried.  The modern revision shipped under three conventions; the
/// legacy revision only ever exported Pascal-case names, except for the
/// function-table entry point, which is probed under all three on both
/// revisions.
pub open spec fn spec_symbol_candidates(sym: LogicalSymbol, version: GpuPerfApiVersion) -> Seq<
    Seq<char>,
> {
    match sym {
        LogicalSymbol::GetVersion => if version is V4_1 {
            seq!["GpaGetVersion"@, "gpa_get_version"@, "GPA_GetVersion"@]
        } else {
            seq!["GpaGetVersion"@]
        },
        LogicalSymbol::Initialize => if version is V4_1 {
            seq!["GpaInitialize"@, "gpa_initialize"@, "GPA_Initialize"@]
        } else {
            seq!["GpaInitialize"@]
        },
        LogicalSymbol::Destroy => if version is V4_1 {
            seq!["GpaDestroy"@, "gpa_destroy"@, "GPA_Destroy"@]
        } else {
            seq!["GpaDestroy"@]
        },
        LogicalSymbol::GetFuncTable => seq![
            "GpaGetFuncTable"@,
            "gpa_get_func_table"@,
            "GPA_GetFuncTable"@,
        ],
    }
}

/// Export-name candidates for a logical symbol, in order.
pub fn symbol_candidates(sym: LogicalSymbol, version: GpuPerfApiVersion) -> (names: Vec<String>)
    ensures
        names@.map_values(|s: String| s@) == spec_symbol_candidates(sym, version),
{
    let mut names: Vec<String> = Vec::new();
    match sym {
        LogicalSymbol::GetVersion => {
            names.push("GpaGetVersion".to_owned());
            if matches!(version, GpuPerfApiVersion::V4_1) {
                names.push("gpa_get_version".to_owned());
                names.push("GPA_GetVersion".to_owned());
            }
        },
        LogicalSymbol::Initialize => {
            names.push("GpaInitialize".to_owned());
            if matches!(version, GpuPerfApiVersion::V4_1) {
                names.push("gpa_initialize".to_owned());
                names.push("GPA_Initialize".to_owned());
            }
        },
        LogicalSymbol::Destroy => {
            names.push("GpaDestroy".to_owned());
            if matches!(version, GpuPerfApiVersion::V4_1) {
                names.push("gpa_destroy".to_owned());
                names.push("GPA_Destroy".to_owned());
            }
        },
        LogicalSymbol::GetFuncTable => {
            names.push("GpaGetFuncTable".to_owned());
            names.push("gpa_get_func_table".to_owned());
            names.push("GPA_GetFuncTable".to_owned());
        },
    }
    assert(names@.map_values(|s: String| s@) =~= spec_symbol_candidates(sym, version));
    names
}

/// For each logical symbol, the index of the export-name candidate that
/// resolved.  Resolved once at construction; read-only after.  All four
/// symbols are mandatory — get-version, initialize, destroy and the
/// function-table entry point — so a binding only exists with every
/// slot filled.
#[derive(Debug, Clone, Copy, PartialEq, Eq, Structural)]
pub struct SymbolBinding {
    pub get_version: Option<usize>,
    pub initialize: Option<usize>,
    pub destroy: Option<usize>,
    pub get_func_table: Option<usize>,
}

/// Binding decision over the per-candidate resolution outcomes of the
/// four logical symbols.  Each symbol binds to its first successful
/// candidate.  Every one of the four is mandatory: if any resolved
/// under no candidate, the whole binding — and with it monitor
/// construction — fails with the symbol-resolution error.
pub fn bind_symbols(
    get_version: &Vec<bool>,
    initialize: &Vec<bool>,
    destroy: &Vec<bool>,
    get_func_table: &Vec<bool>,
) -> (r: GpaResult<SymbolBinding>)
    ensures
        match r {
            Ok(b) => {
                &&& first_success_is(b.get_version, get_version@)
                &&& first_success_is(b.initialize, initialize@)
                &&& first_success_is(b.destroy, destroy@)
                &&& first_success_is(b.get_func_table, get_func_table@)
                &&& b.get_version is Some
                &&& b.initialize is Some
                &&& b.destroy is Some
                &&& b.get_func_table is Some
            },
            Err(e) => {
                &&& e == GpaError::SymbolResolution
                &&& {
                    ||| (forall|k: int| 0 <= k < get_version@.len() ==> !get_version@[k])
                    ||| (forall|k: int| 0 <= k < initialize@.len() ==> !initialize@[k])
                    ||| (forall|k: int| 0 <= k < destroy@.len() ==> !destroy@[k])
                    ||| (forall|k: int| 0 <= k < get_func_table@.len() ==> !get_func_table@[k])
                }
            },
        },
{
    let gv = first_success(get_version);
    let init = first_success(initialize);
    let dest = first_success(destroy);
    let gft = first_success(get_func_table);
    if gv.is_none() || init.is_none() || dest.is_none() || gft.is_none() {
        return Err(GpaError::SymbolResolution);
    }
    Ok(SymbolBinding { get_version: gv, initialize: init, destroy: dest, get_func_table: gft })
}

} // verus!
