//! The render context: the window's size, the surface configuration that
//! matches it, and the pipeline that draws into the surface.

use vstd::prelude::*;
use crate::error::{RenderError, StartupError};
use crate::event::WindowEvent;
use crate::pipeline::{Frame, PipelineDesc};
use crate::size::Size;
use crate::surface::{SurfaceCapabilities, SurfaceConfig};

verus! {

/// What a [`RenderContext`] holds, as a mathematical value.
pub ghost struct ContextView<F, A> {
    pub size: Size,
    pub config: SurfaceConfig<F, A>,
    pub pipeline: PipelineDesc<F>,
}

impl<F, A> ContextView<F, A> {
    /// The surface is configured for the window's size, which has area, and
    /// the pipeline is the triangle pipeline for the surface's format.
    pub open spec fn wf(self) -> bool {
        &&& self.size.has_area()
        &&& self.config.size() == self.size
        &&& self.pipeline == PipelineDesc::triangle_spec(self.config.format)
    }

    /// The context right after setup with the given configuration.
    pub open spec fn started(config: SurfaceConfig<F, A>) -> Self {
        ContextView {
            size: config.size(),
            config,
            pipeline: PipelineDesc::triangle_spec(config.format),
        }
    }

    /// The context after the window reported `new_size`: an extent with area
    /// is taken over, one without is dropped.
    pub open spec fn resize(self, new_size: Size) -> Self {
        if new_size.has_area() {
            ContextView { size: new_size, config: self.config.with_size(new_size), ..self }
        } else {
            self
        }
    }

    /// The context after the window reported `sizes`, one after the other.
    pub open spec fn resize_all(self, sizes: Seq<Size>) -> Self
        decreases sizes.len(),
    {
        if sizes.len() == 0 {
            self
        } else {
            self.resize_all(sizes.drop_last()).resize(sizes.last())
        }
    }
}

/// The last of `sizes` that has area, or `fallback` where none has.
pub open spec fn last_with_area(fallback: Size, sizes: Seq<Size>) -> Size
    decreases sizes.len(),
{
    if sizes.len() == 0 {
        fallback
    } else if sizes.last().has_area() {
        sizes.last()
    } else {
        last_with_area(fallback, sizes.drop_last())
    }
}

/// The state behind the frames of one window.
pub struct RenderContext<F, A> {
    size: Size,
    config: SurfaceConfig<F, A>,
    pipeline: PipelineDesc<F>,
}

impl<F, A> View for RenderContext<F, A> {
    type V = ContextView<F, A>;

    closed spec fn view(&self) -> ContextView<F, A> {
        ContextView { size: self.size, config: self.config, pipeline: self.pipeline }
    }
}

impl<F, A> RenderContext<F, A> {
    /// Holds of every context there is: see [`ContextView::wf`].
    #[verifier::type_invariant]
    pub open spec fn inv(self) -> bool {
        self@.wf()
    }
}

impl<F: Copy, A: Copy> RenderContext<F, A> {
    /// Sets the context up for a window of extent `size` whose surface
    /// reports `capabilities` with the chosen adapter.
    ///
    /// Fails exactly when [`SurfaceConfig::negotiate`] does, with its error.
    pub fn new(size: Size, capabilities: &SurfaceCapabilities<F, A>) -> (outcome: Result<
        Self,
        StartupError,
    >)
        ensures
            outcome is Ok <==> capabilities.formats@.len() > 0 && capabilities.alpha_modes@.len()
                > 0 && size.has_area(),
            outcome matches Ok(context) ==> context@.wf() && SurfaceConfig::negotiate_spec(
                capabilities.formats@,
                capabilities.alpha_modes@,
                size,
            ) == Ok::<SurfaceConfig<F, A>, StartupError>(context@.config),
            outcome matches Ok(context) ==> context@ == ContextView::started(context@.config),
            outcome matches Err(error) ==> SurfaceConfig::negotiate_spec(
                capabilities.formats@,
                capabilities.alpha_modes@,
                size,
            ) == Err::<SurfaceConfig<F, A>, StartupError>(error),
    {
        match SurfaceConfig::negotiate(capabilities, size) {
            Ok(config) => Ok(
                RenderContext { size, config, pipeline: PipelineDesc::triangle(config.format) },
            ),
            Err(error) => Err(error),
        }
    }

    /// The window's last known size with area.
    pub fn size(&self) -> (size: Size)
        ensures
            size == self@.size,
            self@.wf(),
    {
        proof {
            use_type_invariant(self);
        }
        self.size
    }

    /// The configuration the surface is to have.
    pub fn config(&self) -> (config: SurfaceConfig<F, A>)
        ensures
            config == self@.config,
            self@.wf(),
    {
        proof {
            use_type_invariant(self);
        }
        self.config
    }

    /// The pipeline that draws the frames. It never changes.
    pub fn pipeline(&self) -> (pipeline: PipelineDesc<F>)
        ensures
            pipeline == self@.pipeline,
            self@.wf(),
    {
        proof {
            use_type_invariant(self);
        }
        self.pipeline
    }

    /// Takes note of the window's new size. An extent with area becomes the
    /// context's size and the surface's extent, and the configuration to
    /// apply to the surface is returned. An extent without area, as a
    /// minimised window reports it, changes nothing and returns `None`.
    pub fn resize(&mut self, new_size: Size) -> (apply: Option<SurfaceConfig<F, A>>)
        ensures
            final(self)@ == old(self)@.resize(new_size),
            new_size.has_area() ==> final(self)@.size == new_size,
            new_size.has_area() ==> final(self)@.config == old(self)@.config.with_size(new_size),
            new_size.has_area() ==> final(self)@.pipeline == old(self)@.pipeline,
            new_size.has_area() ==> apply == Some(final(self)@.config),
            !new_size.has_area() ==> final(self)@ == old(self)@ && apply.is_none(),
            final(self)@.wf(),
    {
        proof {
            use_type_invariant(&*self);
        }
        if new_size.is_drawable() {
            let config = SurfaceConfig {
                width: new_size.width,
                height: new_size.height,
                ..self.config
            };
            *self = RenderContext { size: new_size, config, pipeline: self.pipeline };
            Some(config)
        } else {
            None
        }
    }

    /// Offers a window event to the context. No event is consumed: the
    /// answer is always `false` and the context stays as it is.
    pub fn input(&mut self, _event: &WindowEvent) -> (handled: bool)
        ensures
            !handled,
            final(self)@ == old(self)@,
    {
        false
    }

    /// Advances the per-frame state, of which there is none.
    pub fn update(&mut self)
        ensures
            final(self)@ == old(self)@,
    {
    }

    /// Decides what a frame does once the surface has answered the request
    /// for its next texture. Where a texture was acquired, it comes back
    /// with the frame to draw into it, using the context's pipeline; where
    /// not, the error is handed on unchanged.
    pub fn render<T>(&self, acquired: Result<T, RenderError>) -> (outcome: Result<
        (T, Frame),
        RenderError,
    >)
        ensures
            acquired matches Ok(texture) ==> outcome == Ok::<(T, Frame), RenderError>(
                (texture, Frame::triangle_spec()),
            ),
            acquired matches Err(error) ==> outcome == Err::<(T, Frame), RenderError>(error),
    {
        match acquired {
            Ok(texture) => Ok((texture, Frame::triangle())),
            Err(error) => Err(error),
        }
    }
}

/// A size with area replaces the context's size and the surface's extent,
/// and leaves everything else alone.
pub proof fn lemma_resize_takes_size<F, A>(context: ContextView<F, A>, new_size: Size)
    requires
        new_size.has_area(),
    ensures
        context.resize(new_size).size == new_size,
        context.resize(new_size).config.size() == new_size,
        context.resize(new_size).config == context.config.with_size(new_size),
        context.resize(new_size).pipeline == context.pipeline,
{
}

/// A size without area, in either direction, is dropped.
pub proof fn lemma_resize_drops_empty_size<F, A>(context: ContextView<F, A>, new_size: Size)
    requires
        new_size.width == 0 || new_size.height == 0,
    ensures
        context.resize(new_size) == context,
{
}

/// Reporting the same size twice leaves the context as reporting it once.
pub proof fn lemma_resize_idempotent<F, A>(context: ContextView<F, A>, new_size: Size)
    ensures
        context.resize(new_size).resize(new_size) == context.resize(new_size),
{
}

/// A new size leaves the context well-formed, and the size the context
/// already has changes nothing.
pub proof fn lemma_resize_keeps_wf<F, A>(context: ContextView<F, A>, new_size: Size)
    requires
        context.wf(),
    ensures
        context.resize(new_size).wf(),
        context.resize(context.size) == context,
{
}

/// Whatever sizes the window reports, the surface stays configured for the
/// last one that had area, or as it was where none had. Nothing but the
/// extent ever changes.
pub proof fn lemma_size_is_last_with_area<F, A>(context: ContextView<F, A>, sizes: Seq<Size>)
    requires
        context.wf(),
    ensures
        context.resize_all(sizes).wf(),
        context.resize_all(sizes).size == last_with_area(context.size, sizes),
        context.resize_all(sizes).config == context.config.with_size(
            last_with_area(context.size, sizes),
        ),
        context.resize_all(sizes).pipeline == context.pipeline,
    decreases sizes.len(),
{
    if sizes.len() > 0 {
        lemma_size_is_last_with_area(context, sizes.drop_last());
    }
}

} // verus!
