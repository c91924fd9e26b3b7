//! Drawing-context abstraction. The renderer models the single drawable
//! surface the loop draws to: a logical viewport configuration and a count of
//! frames prepared. The hosting layer owns the actual platform context and
//! mirrors `initialize` and `clear` onto it; the core's contracts are stated
//! over this model, which is what lets the loop prove that exactly one frame
//! is prepared per repaint.

use vstd::prelude::*;

verus! {

/// The logical canvas size the drawable surface is configured to.
pub const LOGICAL_CANVAS_SIZE: u32 = 600;

/// The drawing-context wrapper: viewport configuration plus an account of
/// frames prepared on the surface.
pub struct Renderer {
    /// Logical viewport width.
    pub width: u32,
    /// Logical viewport height.
    pub height: u32,
    /// Whether `initialize` has configured the viewport.
    pub configured: bool,
    /// Number of times the surface was reset for a new frame.
    pub frames: u64,
}

impl Renderer {
    /// A renderer for a surface of the given logical size; the viewport is
    /// not yet configured and no frame has been prepared.
    pub fn new(width: u32, height: u32) -> (r: Renderer)
        ensures
            r.width == width,
            r.height == height,
            r.configured == false,
            r.frames == 0,
    {
        Renderer { width, height, configured: false, frames: 0 }
    }

    /// Configures the viewport to the renderer's logical size. The hosting
    /// layer applies the same size to the owned platform context.
    pub fn initialize(&mut self)
        ensures
            final(self).configured == true,
            final(self).width == old(self).width,
            final(self).height == old(self).height,
            final(self).frames == old(self).frames,
    {
        self.configured = true;
    }

    /// Resets the surface for the next frame, accounting for exactly one
    /// prepared frame. The clear color/depth policy is the concrete game's
    /// configuration concern at the boundary.
    pub fn clear(&mut self)
        requires
            old(self).frames < u64::MAX,
        ensures
            final(self).frames == old(self).frames + 1,
            final(self).width == old(self).width,
            final(self).height == old(self).height,
            final(self).configured == old(self).configured,
    {
        self.frames = self.frames + 1;
    }
}

} // verus!
