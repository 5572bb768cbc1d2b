//! What can go wrong at startup and while presenting a frame, and what the
//! frame loop does about each failure.

use vstd::prelude::*;

verus! {

/// Why a render context could not be set up. Each of these is fatal: no
/// context exists afterwards.
#[derive(Clone, Copy, Debug, PartialEq, Eq, Structural)]
pub enum StartupError {
    /// None of the enumerated adapters can present to the window's surface.
    NoAdapter,
    /// The surface reports no texture format for the chosen adapter.
    NoSurfaceFormat,
    /// The surface reports no alpha mode for the chosen adapter.
    NoAlphaMode,
    /// The window has no drawable area, so no surface can be configured for it.
    EmptyWindow,
}

/// Why no frame could be acquired from the surface.
#[derive(Clone, Copy, Debug, PartialEq, Eq, Structural)]
pub enum RenderError {
    /// The surface's configuration is stale and has to be applied again.
    Lost,
    /// No memory is left to allocate a frame.
    OutOfMemory,
    /// The surface changed under the swap chain.
    Outdated,
    /// No frame became available in time.
    Timeout,
    /// Anything else the backend reports.
    Other,
}

/// How the frame loop answers a failed frame.
#[derive(Clone, Copy, Debug, PartialEq, Eq, Structural)]
pub enum Recovery {
    /// Configure the surface again for the current size; render next frame.
    Reconfigure,
    /// Stop the frame loop.
    Terminate,
    /// Report the error and render next frame as usual.
    Retry,
}

impl RenderError {
    /// The recovery policy, variant by variant.
    pub open spec fn recovery_spec(self) -> Recovery {
        match self {
            RenderError::Lost => Recovery::Reconfigure,
            RenderError::OutOfMemory => Recovery::Terminate,
            RenderError::Outdated => Recovery::Retry,
            RenderError::Timeout => Recovery::Retry,
            RenderError::Other => Recovery::Retry,
        }
    }

    pub fn recovery(self) -> (recovery: Recovery)
        ensures
            recovery == self.recovery_spec(),
    {
        match self {
            RenderError::Lost => Recovery::Reconfigure,
            RenderError::OutOfMemory => Recovery::Terminate,
            RenderError::Outdated => Recovery::Retry,
            RenderError::Timeout => Recovery::Retry,
            RenderError::Other => Recovery::Retry,
        }
    }
}

} // verus!
