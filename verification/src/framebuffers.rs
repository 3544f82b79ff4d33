use vstd::prelude::*;

use crate::geometry::Extent;
use crate::geometry::Viewport;
use crate::geometry::spec_viewport_for;
use crate::geometry::viewport_for;

verus! {

/// One framebuffer of the current framebuffer set. The driver keeps the
/// device objects; this records what each framebuffer was derived from:
/// the swapchain generation its image belongs to, and that image's
/// position in the swapchain. A framebuffer must never be submitted
/// against a swapchain of another generation.
#[derive(Clone, Copy, PartialEq, Eq, Structural, Debug)]
pub struct FramebufferSlot {
    pub generation: u64,
    pub image_index: usize,
}

/// What a framebuffer set built for the given swapchain generation over
/// `image_count` images holds: one framebuffer per image, in image order.
pub open spec fn spec_framebuffer_set(generation: u64, image_count: usize) -> Seq<FramebufferSlot> {
    Seq::new(
        image_count as nat,
        |i: int| FramebufferSlot { generation, image_index: i as usize },
    )
}

/// Rebuilds the per-image framebuffers and the shared viewport for a
/// swapchain generation: exactly one framebuffer per swapchain image,
/// each tied to that generation, and a viewport covering the drawable
/// surface. Called exactly once per generation, never partially.
pub fn window_size_dependent_setup(generation: u64, image_count: usize, extent: Extent) -> (r: (
    Vec<FramebufferSlot>,
    Viewport,
))
    ensures
        r.0@ == spec_framebuffer_set(generation, image_count),
        r.1 == spec_viewport_for(extent),
{
    let mut framebuffers: Vec<FramebufferSlot> = Vec::new();
    let mut i: usize = 0;
    while i < image_count
        invariant
            i <= image_count,
            framebuffers@.len() == i as nat,
            forall|j: int|
                0 <= j < i ==> framebuffers@[j] == (FramebufferSlot {
                    generation,
                    image_index: j as usize,
                }),
        decreases image_count - i,
    {
        framebuffers.push(FramebufferSlot { generation, image_index: i });
        i += 1;
    }
    proof {
        assert(framebuffers@ =~= spec_framebuffer_set(generation, image_count));
    }
    (framebuffers, viewport_for(extent))
}

} // verus!
