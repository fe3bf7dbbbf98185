//! Safe erase planning for configuration ("information") memory. A
//! static table maps a device identity to the window of erasable
//! configuration memory; when a file to program overlaps that window,
//! the planner returns the range to erase, shortened by one sector so
//! that the final sector — which may hold factory calibration data —
//! is never erased automatically.

use vstd::prelude::*;

use crate::error::Error;
use crate::text::str_eq;

verus! {

/// An erasable configuration-memory window: where it starts, how long
/// it is, and the width of one erase sector.
#[derive(Clone, Copy, Debug, PartialEq, Eq, Structural)]
pub struct InfoMem {
    pub origin: u16,
    pub length: u16,
    pub sector_size: u16,
}

/// A well-formed window: sectors are non-empty, the window holds at
/// least one sector, and it lies within the 16-bit address space.
pub open spec fn infomem_wf(e: InfoMem) -> bool {
    &&& e.sector_size > 0
    &&& e.length >= e.sector_size
    &&& e.origin + e.length <= 0x10000
}

/// The static device-layout table: the value-line parts this library
/// knows carry 256 bytes of configuration memory at 0x1000 in four
/// 64-byte sectors.
pub open spec fn infomem_table(device: Seq<char>) -> Option<InfoMem> {
    if device == "G2553"@ || device == "G2452"@ || device == "G2231"@ || device == "G2211"@
        || device == "G2131"@ || device == "F2013"@ {
        Some(InfoMem { origin: 0x1000, length: 256, sector_size: 64 })
    } else {
        None
    }
}

/// Every entry of the table is well formed.
pub proof fn lemma_infomem_table_wf(device: Seq<char>)
    ensures
        infomem_table(device) matches Some(e) ==> infomem_wf(e),
{
}

/// Look a device identity up in the layout table.
pub fn infomem_lookup(device: &str) -> (r: Option<InfoMem>)
    ensures
        r == infomem_table(device@),
{
    if str_eq(device, "G2553") || str_eq(device, "G2452") || str_eq(device, "G2231") || str_eq(
        device,
        "G2211",
    ) || str_eq(device, "G2131") || str_eq(device, "F2013") {
        Some(InfoMem { origin: 0x1000, length: 256, sector_size: 64 })
    } else {
        None
    }
}

/// `a` lies in the window `e`.
pub open spec fn section_in_region(e: InfoMem, a: u64) -> bool {
    e.origin <= a < e.origin + e.length
}

/// Some section address lies in the window `e`.
pub open spec fn any_section_in_region(e: InfoMem, sections: Seq<u64>) -> bool {
    exists|k: int| 0 <= k < sections.len() && section_in_region(e, sections[k])
}

/// The erase range the planner returns when a file overlaps the
/// window: the same origin, one sector held back at the top.
pub open spec fn protected_region(e: InfoMem) -> InfoMem {
    InfoMem {
        origin: e.origin,
        length: (e.length - e.sector_size) as u16,
        sector_size: e.sector_size,
    }
}

/// Plan the configuration-memory erase for a file whose loadable
/// sections start at `sections`. In simulation there is no physical
/// memory to protect and nothing is planned. Otherwise the device must
/// be known and in the table; if no section touches the window nothing
/// needs erasing, and if one does, the erase range stops one sector
/// short of the window's end.
#[verifier::loop_isolation(false)]
pub fn compute_infomem(simulated: bool, device: &Option<String>, sections: &Vec<u64>) -> (r: Result<
    Option<InfoMem>,
    Error,
>)
    ensures
        simulated ==> r == Ok::<Option<InfoMem>, Error>(None),
        !simulated ==> match device {
            None => r == Err::<Option<InfoMem>, Error>(Error::NoDevice),
            Some(d) => match infomem_table(d@) {
                None => r matches Err(Error::UnknownDevice(u)) && u@ == d@,
                Some(e) => r == Ok::<Option<InfoMem>, Error>(
                    if any_section_in_region(e, sections@) {
                        Some(protected_region(e))
                    } else {
                        None
                    },
                ),
            },
        },
{
    if simulated {
        return Ok(None);
    }
    let d = match device {
        Some(d) => d,
        None => {
            return Err(Error::NoDevice);
        },
    };
    let e = match infomem_lookup(d.as_str()) {
        Some(e) => e,
        None => {
            return Err(Error::UnknownDevice(d.clone()));
        },
    };
    proof {
        lemma_infomem_table_wf(d@);
    }
    let lo: u64 = e.origin as u64;
    let hi: u64 = lo + e.length as u64;
    let mut k: usize = 0;
    while k < sections.len()
        invariant
            k <= sections@.len(),
            forall|j: int| 0 <= j < k ==> !section_in_region(e, sections@[j]),
        decreases sections@.len() - k,
    {
        let a = sections[k];
        if lo <= a && a < hi {
            return Ok(Some(InfoMem {
                origin: e.origin,
                length: e.length - e.sector_size,
                sector_size: e.sector_size,
            }));
        }
        k += 1;
    }
    Ok(None)
}

} // verus!
