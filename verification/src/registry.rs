//! The registry: aggregates every family's discovery scanner and dispatches a
//! selector to the matching family's construction routine.

use vstd::prelude::*;

use crate::bmp::{BMPProbe, fresh_bmp_view, is_bmp_identity, list_bmp_devices};
use crate::probe::{
    DebugProbeError, DebugProbeInfo, DebugProbeSelector, DebugProbeType, ProbeCreationError,
};

verus! {

/// Every probe the host's transports enumerate, each family's scan in turn.
/// The order is stable within a family and the concatenation order across
/// families is fixed, so the result is deterministic for a fixed set of
/// attached devices. Enumeration trouble yields fewer entries, never an error.
pub fn list_all_probes() -> (r: Vec<DebugProbeInfo>)
    ensures
        forall|i: int| 0 <= i < r@.len() ==> is_bmp_identity((#[trigger] r@[i])@),
{
    list_bmp_devices()
}

/// Dispatch a selector to the chosen family's construction routine and return
/// the connected probe, or `NotFound` where that family cannot produce one.
pub fn open_probe(probe_type: DebugProbeType, selector: &DebugProbeSelector) -> (r: Result<
    Box<BMPProbe>,
    DebugProbeError,
>)
    ensures
        r matches Ok(p) ==> p@ == fresh_bmp_view(),
        r is Err ==> r == Err::<Box<BMPProbe>, DebugProbeError>(
            DebugProbeError::ProbeCouldNotBeCreated(ProbeCreationError::NotFound),
        ),
{
    match probe_type {
        DebugProbeType::BMP => BMPProbe::new_from_selector(selector),
    }
}

} // verus!
