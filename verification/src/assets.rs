//! Vendor classification of a GPU model name, used to pick the logo
//! shown next to it.  The image bytes themselves are packaged by the
//! host program; the library only decides which one applies.

use vstd::prelude::*;
use crate::strutil::{contains_seq, lower_seq, str_contains_lower};

verus! {

/// The logo a model name calls for.
#[derive(Debug, Clone, Copy, PartialEq, Eq, Structural)]
pub enum GpuLogo {
    Nvidia,
    Amd,
    Intel,
    Virtual,
}

/// The logo for a model name: the first vendor whose name occurs in the
/// lowercased model string, or the virtual-machine logo for anything
/// else.
pub open spec fn spec_gpu_logo(model: Seq<char>) -> GpuLogo {
    if contains_seq(lower_seq(model), "nvidia"@) {
        GpuLogo::Nvidia
    } else if contains_seq(lower_seq(model), "amd"@) {
        GpuLogo::Amd
    } else if contains_seq(lower_seq(model), "intel"@) {
        GpuLogo::Intel
    } else {
        GpuLogo::Virtual
    }
}

/// Pick the logo for a GPU model string.
pub fn get_gpu_logo(model: &str) -> (l: GpuLogo)
    ensures
        l == spec_gpu_logo(model@),
{
    if str_contains_lower(model, "nvidia") {
        GpuLogo::Nvidia
    } else if str_contains_lower(model, "amd") {
        GpuLogo::Amd
    } else if str_contains_lower(model, "intel") {
        GpuLogo::Intel
    } else {
        GpuLogo::Virtual
    }
}

} // verus!
