//! The presentation surface as the frame loop sees it: what the backend
//! reports it can do, and the configuration that is in force.
//!
//! Texture formats and alpha modes belong to the graphics backend. They are
//! carried here as values of the caller's types `F` and `A`, chosen from what
//! the backend reported and never inspected.

use vstd::prelude::*;
use crate::error::StartupError;
use crate::size::Size;

verus! {

/// When a rendered frame becomes visible.
#[derive(Clone, Copy, Debug, PartialEq, Eq, Structural)]
pub enum PresentMode {
    AutoVsync,
    AutoNoVsync,
    /// Frames queue up and are shown one per vertical blank.
    Fifo,
    FifoRelaxed,
    Immediate,
    Mailbox,
}

/// What a texture may be used for.
#[derive(Clone, Copy, Debug, PartialEq, Eq, Structural)]
pub enum TextureUsage {
    CopySrc,
    CopyDst,
    TextureBinding,
    StorageBinding,
    /// The texture is the target of a render pass.
    RenderAttachment,
}

/// What a surface supports with a given adapter, in the backend's order of
/// preference.
pub struct SurfaceCapabilities<F, A> {
    pub formats: Vec<F>,
    pub alpha_modes: Vec<A>,
}

/// The configuration of a surface. No view formats beyond `format` itself
/// are ever requested.
#[derive(Debug, PartialEq, Eq)]
pub struct SurfaceConfig<F, A> {
    pub usage: TextureUsage,
    pub format: F,
    pub width: u32,
    pub height: u32,
    pub present_mode: PresentMode,
    pub alpha_mode: A,
}

impl<F: Copy, A: Copy> Clone for SurfaceConfig<F, A> {
    fn clone(&self) -> (copy: Self)
        ensures
            copy == *self,
    {
        *self
    }
}

impl<F: Copy, A: Copy> Copy for SurfaceConfig<F, A> {

}

impl<F, A> SurfaceConfig<F, A> {
    /// The extent the surface is configured for.
    pub open spec fn size(self) -> Size {
        Size { width: self.width, height: self.height }
    }

    /// This configuration with another extent and nothing else changed.
    pub open spec fn with_size(self, size: Size) -> Self {
        SurfaceConfig { width: size.width, height: size.height, ..self }
    }

    /// The configuration a surface starts with: a render target of the given
    /// format and extent, presented in step with the display.
    pub open spec fn initial(format: F, alpha_mode: A, size: Size) -> Self {
        SurfaceConfig {
            usage: TextureUsage::RenderAttachment,
            format,
            width: size.width,
            height: size.height,
            present_mode: PresentMode::Fifo,
            alpha_mode,
        }
    }

    /// The outcome of choosing a starting configuration from the formats
    /// and alpha modes a surface reports, for a window of extent `size`.
    pub open spec fn negotiate_spec(formats: Seq<F>, alpha_modes: Seq<A>, size: Size) -> Result<
        Self,
        StartupError,
    > {
        if formats.len() == 0 {
            Err(StartupError::NoSurfaceFormat)
        } else if alpha_modes.len() == 0 {
            Err(StartupError::NoAlphaMode)
        } else if !size.has_area() {
            Err(StartupError::EmptyWindow)
        } else {
            Ok(Self::initial(formats[0], alpha_modes[0], size))
        }
    }
}

impl<F: Copy, A: Copy> SurfaceConfig<F, A> {
    /// Picks the starting configuration for a window of extent `size` from
    /// what the surface reports: the first format and the first alpha mode.
    ///
    /// Fails exactly when there is nothing to configure: one of the two
    /// lists is empty, or the window has no area. Of several failures the
    /// first in that order is reported.
    pub fn negotiate(capabilities: &SurfaceCapabilities<F, A>, size: Size) -> (outcome: Result<
        Self,
        StartupError,
    >)
        ensures
            outcome == Self::negotiate_spec(capabilities.formats@, capabilities.alpha_modes@, size),
            outcome is Ok <==> capabilities.formats@.len() > 0 && capabilities.alpha_modes@.len()
                > 0 && size.has_area(),
    {
        if capabilities.formats.len() == 0 {
            Err(StartupError::NoSurfaceFormat)
        } else if capabilities.alpha_modes.len() == 0 {
            Err(StartupError::NoAlphaMode)
        } else if !size.is_drawable() {
            Err(StartupError::EmptyWindow)
        } else {
            Ok(
                SurfaceConfig {
                    usage: TextureUsage::RenderAttachment,
                    format: capabilities.formats[0],
                    width: size.width,
                    height: size.height,
                    present_mode: PresentMode::Fifo,
                    alpha_mode: capabilities.alpha_modes[0],
                },
            )
        }
    }
}

} // verus!
