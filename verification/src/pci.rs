//! Parsing of Windows Plug-and-Play device identifiers, of the shape
//! `PCI\VEN_xxxx&DEV_xxxx&SUBSYS_xxxx&REV_xx`.  The four-digit device
//! id after `DEV_` identifies the GPU model.  Some sources escape the
//! `&` separator as the six characters `&`, so both end markers
//! are recognized.

use vstd::prelude::*;
use vstd::string::StrSliceExecFns;
use crate::strutil::{chars_to_string, spec_find, str_find, upper_char, upper_char_exec, upper_seq};

verus! {

/// The device id extracted from a PnP identifier: the text between the
/// first `DEV_` and the next separator, accepted only when it is
/// exactly four characters, and uppercased.
pub open spec fn spec_extract_pci_device_id(s: Seq<char>) -> Option<Seq<char>> {
    match spec_find(s, "DEV_"@) {
        None => None,
        Some(start) => {
            let rem = s.skip(start + 4);
            let end_opt = match spec_find(rem, "&"@) {
                Some(e) => Some(e),
                None => spec_find(rem, "\\u0026"@),
            };
            match end_opt {
                None => None,
                Some(end) => if end == 4 {
                    Some(upper_seq(rem.take(4)))
                } else {
                    None
                },
            }
        },
    }
}

/// Extract the PCI device id from a PnP device identifier.
pub fn extract_pci_device_id(pnp_device_id: &str) -> (r: Option<String>)
    ensures
        match r {
            Some(id) => spec_extract_pci_device_id(pnp_device_id@) == Some(id@),
            None => spec_extract_pci_device_id(pnp_device_id@) is None,
        },
{
    let start = match str_find(pnp_device_id, "DEV_") {
        Some(i) => i,
        None => {
            return None;
        },
    };
    proof {
        reveal_strlit("DEV_");
    }
    let len = pnp_device_id.unicode_len();
    assert(start + 4 <= len);
    let remaining = pnp_device_id.substring_char(start + 4, len);
    assert(remaining@ =~= pnp_device_id@.skip(start + 4));
    let end = match str_find(remaining, "&") {
        Some(e) => Some(e),
        None => str_find(remaining, "\\u0026"),
    };
    let end = match end {
        Some(e) => e,
        None => {
            return None;
        },
    };
    if end == 4 {
        proof {
            reveal_strlit("&");
            reveal_strlit("\\u0026");
        }
        assert(remaining@.len() >= 4);
        let mut id_chars: Vec<char> = Vec::new();
        let mut k: usize = 0;
        while k < 4
            invariant
                k <= 4,
                remaining@.len() >= 4,
                id_chars@.len() == k,
                forall|t: int| 0 <= t < k ==> id_chars@[t] == upper_char(remaining@[t]),
            decreases 4 - k,
        {
            id_chars.push(upper_char_exec(remaining.get_char(k)));
            k += 1;
        }
        assert(id_chars@ =~= upper_seq(remaining@.take(4)));
        Some(chars_to_string(&id_chars))
    } else {
        None
    }
}

} // verus!
