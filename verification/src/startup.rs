//! Decisions taken once, while the render context is being set up.

use vstd::prelude::*;
use crate::error::StartupError;

verus! {

/// Whether `index` is the first adapter that can present to the surface.
pub open spec fn is_first_supported(supported: Seq<bool>, index: int) -> bool {
    &&& 0 <= index < supported.len()
    &&& supported[index]
    &&& forall|earlier: int| 0 <= earlier < index ==> !supported[earlier]
}

/// Whether no adapter can present to the surface.
pub open spec fn none_supported(supported: Seq<bool>) -> bool {
    forall|index: int| 0 <= index < supported.len() ==> !supported[index]
}

/// Chooses the adapter to render with. `supported[i]` says whether the
/// `i`-th enumerated adapter can present to the window's surface; the first
/// one that can is taken, whatever else is on offer.
pub fn select_adapter(supported: &Vec<bool>) -> (choice: Result<usize, StartupError>)
    ensures
        choice is Err <==> none_supported(supported@),
        choice matches Ok(index) ==> is_first_supported(supported@, index as int),
        choice matches Err(error) ==> error == StartupError::NoAdapter,
{
    let mut index: usize = 0;
    while index < supported.len()
        invariant
            index <= supported.len(),
            forall|earlier: int| 0 <= earlier < index ==> !supported@[earlier],
        decreases supported.len() - index,
    {
        if supported[index] {
            return Ok(index);
        }
        index += 1;
    }
    Err(StartupError::NoAdapter)
}

/// The resource limits a device is asked to support.
#[derive(Clone, Copy, Debug, PartialEq, Eq, Structural)]
pub enum LimitsProfile {
    /// The backend's default limits.
    Default,
    /// The reduced limits that WebGL2 can meet.
    DownlevelWebGl2,
}

/// What is asked of the device. No optional feature is ever requested.
#[derive(Clone, Copy, Debug, PartialEq, Eq, Structural)]
pub struct DeviceRequest {
    pub limits: LimitsProfile,
}

impl DeviceRequest {
    /// The request for the platform the program runs on: reduced limits in a
    /// browser (`wasm32`), the defaults everywhere else.
    pub fn for_target(wasm32: bool) -> (request: DeviceRequest)
        ensures
            wasm32 ==> request.limits == LimitsProfile::DownlevelWebGl2,
            !wasm32 ==> request.limits == LimitsProfile::Default,
    {
        if wasm32 {
            DeviceRequest { limits: LimitsProfile::DownlevelWebGl2 }
        } else {
            DeviceRequest { limits: LimitsProfile::Default }
        }
    }
}

} // verus!
