//! The one render pipeline and the one frame it draws.

use vstd::prelude::*;

verus! {

/// How consecutive vertices are assembled into primitives.
#[derive(Clone, Copy, Debug, PartialEq, Eq, Structural)]
pub enum PrimitiveTopology {
    PointList,
    LineList,
    LineStrip,
    /// Every three vertices form one triangle.
    TriangleList,
    TriangleStrip,
}

/// Which winding order marks the front of a triangle.
#[derive(Clone, Copy, Debug, PartialEq, Eq, Structural)]
pub enum FrontFace {
    /// Counter-clockwise.
    Ccw,
    /// Clockwise.
    Cw,
}

/// One side of a triangle.
#[derive(Clone, Copy, Debug, PartialEq, Eq, Structural)]
pub enum Face {
    Front,
    Back,
}

/// The fixed-function state of a render pipeline, and the format of the
/// colour target it writes.
#[derive(Debug, PartialEq, Eq)]
pub struct PipelineDesc<F> {
    pub target_format: F,
    pub topology: PrimitiveTopology,
    pub front_face: FrontFace,
    /// The side that is discarded, if any.
    pub cull_mode: Option<Face>,
    /// Whether fragments are tested against a depth/stencil attachment.
    pub depth_stencil: bool,
    /// Samples per pixel; 1 means no multisampling.
    pub sample_count: u32,
}

impl<F: Copy> Clone for PipelineDesc<F> {
    fn clone(&self) -> (copy: Self)
        ensures
            copy == *self,
    {
        *self
    }
}

impl<F: Copy> Copy for PipelineDesc<F> {

}

impl<F> PipelineDesc<F> {
    /// The pipeline that draws the triangle: a triangle list with
    /// counter-clockwise fronts, backs culled, no depth or stencil test and
    /// one sample per pixel.
    pub open spec fn triangle_spec(target_format: F) -> Self {
        PipelineDesc {
            target_format,
            topology: PrimitiveTopology::TriangleList,
            front_face: FrontFace::Ccw,
            cull_mode: Some(Face::Back),
            depth_stencil: false,
            sample_count: 1,
        }
    }

    pub fn triangle(target_format: F) -> (pipeline: Self)
        ensures
            pipeline == Self::triangle_spec(target_format),
    {
        PipelineDesc {
            target_format,
            topology: PrimitiveTopology::TriangleList,
            front_face: FrontFace::Ccw,
            cull_mode: Some(Face::Back),
            depth_stencil: false,
            sample_count: 1,
        }
    }
}

/// Channel values are counted in steps of one over this.
pub const COLOR_SCALE: u8 = 10;

/// A colour with alpha. Each channel is a number of tenths of full
/// intensity, from 0 to [`COLOR_SCALE`].
#[derive(Clone, Copy, Debug, PartialEq, Eq, Structural)]
pub struct Color {
    pub red: u8,
    pub green: u8,
    pub blue: u8,
    pub alpha: u8,
}

impl Color {
    /// No channel exceeds full intensity.
    pub open spec fn in_range(self) -> bool {
        &&& self.red <= COLOR_SCALE
        &&& self.green <= COLOR_SCALE
        &&& self.blue <= COLOR_SCALE
        &&& self.alpha <= COLOR_SCALE
    }
}

/// What one frame does to the acquired texture: clear it, then draw.
#[derive(Clone, Copy, Debug, PartialEq, Eq, Structural)]
pub struct Frame {
    /// The colour the target is cleared to before anything is drawn.
    pub clear: Color,
    /// Vertices drawn, numbered from 0. No vertex buffer is bound: the vertex
    /// stage derives each position from the vertex's number.
    pub vertices: u32,
    /// Instances drawn, numbered from 0.
    pub instances: u32,
}

impl Frame {
    /// The frame every render produces: an opaque dark blue background,
    /// (0.1, 0.2, 0.3) in tenths, under one triangle.
    pub open spec fn triangle_spec() -> Frame {
        Frame {
            clear: Color { red: 1, green: 2, blue: 3, alpha: 10 },
            vertices: 3,
            instances: 1,
        }
    }

    pub fn triangle() -> (frame: Frame)
        ensures
            frame == Frame::triangle_spec(),
            frame.clear.in_range(),
    {
        Frame {
            clear: Color { red: 1, green: 2, blue: 3, alpha: COLOR_SCALE },
            vertices: 3,
            instances: 1,
        }
    }
}

} // verus!
