use vstd::prelude::*;

use crate::geometry::Extent;
use crate::presentation::EventResponse;
use crate::presentation::FrameFence;
use crate::presentation::PresentationLoop;
use crate::presentation::RedrawPlan;
use crate::presentation::recreate_created_rel;
use crate::presentation::spec_redraw_response;
use crate::presentation::spec_resize;
use crate::presentation::spec_submission;
use crate::presentation::spec_submission_completed;

verus! {

/// Fence monotonicity: in any well-formed state the submission planned
/// next is numbered one past the last submitted frame and waits on
/// exactly the retained fence, which — when pending — is the fence of
/// that last submitted frame. Once the submission completes, the fence
/// retained for the frame after it is this submission's own. Hence frame
/// N's commands cannot begin executing before frame N-1's completion
/// fence has signalled, for every pair of sequential frames.
pub proof fn lemma_fence_monotonicity(s: PresentationLoop, image_index: usize)
    requires
        s.wf(),
        s.frames_submitted < u64::MAX,
    ensures
        spec_submission(s, image_index).frame == s.frames_submitted + 1,
        spec_submission(s, image_index).waits_on == s.fence,
        s.fence matches FrameFence::Pending { frame } ==> frame == s.frames_submitted,
        spec_submission_completed(s).fence == (FrameFence::Pending {
            frame: spec_submission(s, image_index).frame,
        }),
{
}

/// Swapchain/framebuffer consistency: a successful recreation advances
/// the swapchain generation and rebuilds the framebuffer set for the new
/// generation in the same step — one framebuffer per image of the new
/// swapchain, in image order, never a mix with the old generation. And in
/// every well-formed state — so in particular whenever an acquire is
/// issued — every framebuffer belongs to the current generation.
pub proof fn lemma_swapchain_framebuffer_consistency(
    pre: PresentationLoop,
    post: PresentationLoop,
    image_count: usize,
)
    requires
        pre.wf(),
        recreate_created_rel(pre, post, image_count),
    ensures
        post.wf(),
        post.swapchain_generation == pre.swapchain_generation + 1,
        post.framebuffers@.len() == image_count,
        forall|i: int|
            0 <= i < post.framebuffers@.len() ==> post.framebuffers@[i].generation
                == post.swapchain_generation && post.framebuffers@[i].image_index == i,
        forall|i: int|
            0 <= i < pre.framebuffers@.len() ==> pre.framebuffers@[i].generation
                == pre.swapchain_generation,
{
}

/// Resize idempotence: resize notifications overwrite one another — any
/// run of them before the next redraw leaves exactly the state that the
/// last one alone would leave, so recreation runs once, at the size
/// current when it runs, not once per notification.
pub proof fn lemma_resize_last_writer_wins(s: PresentationLoop, first: Extent, last: Extent)
    ensures
        spec_resize(spec_resize(s, first), last) == spec_resize(s, last),
        !s.closed ==> spec_redraw_response(spec_resize(s, last)) == (EventResponse::Redraw {
            plan: RedrawPlan::Recreate { extent: last },
        }),
{
    assert(spec_resize(spec_resize(s, first), last) =~= spec_resize(s, last));
}

/// A successful recreation consumes the pending staleness: the very next
/// redraw acquires an image directly instead of recreating again.
pub proof fn lemma_single_recreation(
    pre: PresentationLoop,
    post: PresentationLoop,
    image_count: usize,
)
    requires
        recreate_created_rel(pre, post, image_count),
        !post.closed,
    ensures
        spec_redraw_response(post) == (EventResponse::Redraw { plan: RedrawPlan::AcquireImage }),
{
}

/// Stale-skip invariant: while the swapchain is stale — in particular
/// after a recreation was refused for unsupported dimensions, which
/// leaves the state unchanged and draws nothing — every following redraw
/// plans a recreation at the window's current size, never an acquire or a
/// draw, until a recreation succeeds.
pub proof fn lemma_stale_skip(s: PresentationLoop)
    requires
        s.stale,
        !s.closed,
    ensures
        spec_redraw_response(s) == (EventResponse::Redraw {
            plan: RedrawPlan::Recreate { extent: s.window_extent },
        }),
{
}

} // verus!
