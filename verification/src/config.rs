//! The presentation-surface configuration: pixel dimensions, the negotiated
//! pixel format, and the FIFO presentation mode. A configuration with a zero
//! dimension would put presentation into an invalid state, so resizing to
//! such a size is rejected and the previous configuration kept.

use vstd::prelude::*;

verus! {

/// The values a presentation surface is configured with. `format` is a token
/// the embedder assigns to the adapter's preferred pixel format; this library
/// only carries it and keeps the pipeline's output format equal to it.
#[derive(Clone, Copy, Debug, PartialEq, Eq, Structural)]
pub struct RenderConfig {
    /// Width of the drawable area in pixels.
    pub width: u32,
    /// Height of the drawable area in pixels.
    pub height: u32,
    /// Token for the negotiated pixel format.
    pub format: u32,
    /// Whether presentation is capped to the display refresh rate (vsync).
    pub fifo: bool,
}

/// The configuration after a resize request: updated in place when both
/// dimensions are strictly positive, unchanged otherwise.
pub open spec fn resized(c: RenderConfig, new_width: u32, new_height: u32) -> RenderConfig {
    if new_width > 0 && new_height > 0 {
        RenderConfig { width: new_width, height: new_height, ..c }
    } else {
        c
    }
}

impl RenderConfig {
    /// A configuration is valid when both dimensions are strictly positive
    /// and presentation is FIFO, the only mode this renderer uses.
    pub open spec fn wf(self) -> bool {
        &&& self.width > 0
        &&& self.height > 0
        &&& self.fifo
    }

    /// The initial configuration: the window's current pixel size, the
    /// adapter's preferred format, FIFO presentation.
    pub fn new(width: u32, height: u32, format: u32) -> (c: RenderConfig)
        requires
            width > 0,
            height > 0,
        ensures
            c.width == width,
            c.height == height,
            c.format == format,
            c.fifo,
            c.wf(),
    {
        RenderConfig { width, height, format, fifo: true }
    }

    /// Applies a resize request. Returns whether the surface must be
    /// reconfigured: true exactly when both dimensions are positive. A zero
    /// dimension leaves the previous configuration untouched.
    pub fn resize(&mut self, new_width: u32, new_height: u32) -> (reconfigure: bool)
        ensures
            *final(self) == resized(*old(self), new_width, new_height),
            reconfigure <==> (new_width > 0 && new_height > 0),
            old(self).wf() ==> final(self).wf(),
    {
        if new_width > 0 && new_height > 0 {
            self.width = new_width;
            self.height = new_height;
            true
        } else {
            false
        }
    }
}

/// A resize request with a zero dimension is a no-op: the previous
/// configuration stands, exactly as it was.
pub proof fn lemma_zero_dimension_resize_is_noop(c: RenderConfig, w: u32, h: u32)
    requires
        w == 0 || h == 0,
    ensures
        resized(c, w, h) == c,
{
}

/// Resizing to a positive size always yields a valid configuration, whatever
/// the configuration was before, and never changes the negotiated format.
pub proof fn lemma_positive_resize_is_valid(c: RenderConfig, w: u32, h: u32)
    requires
        w > 0,
        h > 0,
        c.fifo,
    ensures
        resized(c, w, h).wf(),
        resized(c, w, h).format == c.format,
{
}

} // verus!
