use vstd::prelude::*;

verus! {

/// A drawable size in whole pixels, as the window reports it and as a
/// swapchain is created with it.
#[derive(Clone, Copy, PartialEq, Eq, Structural, Debug)]
pub struct Extent {
    pub width: u32,
    pub height: u32,
}

/// The dynamic viewport rectangle shared by every draw call of a frame.
/// It is recomputed whenever the framebuffer set is rebuilt and always
/// covers the whole drawable surface, with the origin at the top-left
/// corner.
#[derive(Clone, Copy, PartialEq, Eq, Structural, Debug)]
pub struct Viewport {
    pub x: u32,
    pub y: u32,
    pub width: u32,
    pub height: u32,
}

/// A colour as exact integer intensities per channel, on a zero-to-one
/// scale. The demo only ever clears to pure blue, whose channels are all
/// exactly zero or one, so no fractional value arises.
#[derive(Clone, Copy, PartialEq, Eq, Structural, Debug)]
pub struct ClearColor {
    pub red: u32,
    pub green: u32,
    pub blue: u32,
    pub alpha: u32,
}

/// The viewport that covers a drawable surface of the given size.
pub open spec fn spec_viewport_for(extent: Extent) -> Viewport {
    Viewport { x: 0, y: 0, width: extent.width, height: extent.height }
}

/// Computes the viewport covering a drawable surface of the given size.
pub fn viewport_for(extent: Extent) -> (v: Viewport)
    ensures
        v == spec_viewport_for(extent),
{
    Viewport { x: 0, y: 0, width: extent.width, height: extent.height }
}

/// The fixed clear colour applied at the start of every render pass:
/// opaque blue.
pub open spec fn spec_clear_color() -> ClearColor {
    ClearColor { red: 0, green: 0, blue: 1, alpha: 1 }
}

/// Returns the fixed clear colour applied at the start of every render
/// pass.
pub fn clear_color() -> (c: ClearColor)
    ensures
        c == spec_clear_color(),
{
    ClearColor { red: 0, green: 0, blue: 1, alpha: 1 }
}

} // verus!
