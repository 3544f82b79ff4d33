use vstd::prelude::*;

use crate::framebuffers::FramebufferSlot;
use crate::framebuffers::spec_framebuffer_set;
use crate::framebuffers::window_size_dependent_setup;
use crate::geometry::ClearColor;
use crate::geometry::Extent;
use crate::geometry::Viewport;
use crate::geometry::clear_color;
use crate::geometry::spec_clear_color;
use crate::geometry::spec_viewport_for;

verus! {

/// The completion handle retained for the most recently submitted frame.
/// Exactly one is live at a time; the next submission waits on it before
/// its own commands may begin executing on the device.
#[derive(Clone, Copy, PartialEq, Eq, Structural, Debug)]
pub enum FrameFence {
    /// The fence produced by submission number `frame` (frames are
    /// numbered from one).
    Pending { frame: u64 },
    /// A no-op handle that is already signalled: nothing of a previous
    /// frame can still be in flight — at startup, and after a submission
    /// that never reached the device.
    AlreadyComplete,
}

/// A window event, as the platform delivers it to the event loop.
#[derive(Clone, Copy, PartialEq, Eq, Structural, Debug)]
pub enum LoopEvent {
    /// The event queue has drained: one idle cycle ends, so one redraw
    /// may be requested.
    EventsCleared,
    /// The platform asks for the window's contents to be drawn.
    RedrawRequested,
    /// The window's drawable size changed.
    Resized { extent: Extent },
    /// The user asked to close the window.
    CloseRequested,
    /// Any event this renderer does not react to.
    Other,
}

/// The first step of one redraw cycle.
#[derive(Clone, Copy, PartialEq, Eq, Structural, Debug)]
pub enum RedrawPlan {
    /// The swapchain is stale: recreate it at the given size before
    /// anything is drawn this frame.
    Recreate { extent: Extent },
    /// The swapchain is valid: acquire the next image directly.
    AcquireImage,
}

/// What the driver must do in response to one event.
#[derive(Clone, Copy, PartialEq, Eq, Structural, Debug)]
pub enum EventResponse {
    /// Ask the platform for a redraw.
    RequestRedraw,
    /// Run one redraw cycle, starting with the given step.
    Redraw { plan: RedrawPlan },
    /// Leave the event loop; no further frames are processed.
    Exit,
    /// Nothing to do for this event.
    Continue,
}

/// The outcome the device reports for a swapchain recreation. Any failure
/// other than the transient "dimensions unsupported" is fatal: the driver
/// terminates the process and reports nothing back.
#[derive(Clone, Copy, PartialEq, Eq, Structural, Debug)]
pub enum RecreateOutcome {
    /// A new swapchain exists, with this many images.
    Created { image_count: usize },
    /// The requested size cannot be presented to — a transient condition
    /// during a resize (for instance a minimised, zero-sized window).
    DimensionsUnsupported,
}

/// What follows a recreation attempt within the same redraw cycle.
#[derive(Clone, Copy, PartialEq, Eq, Structural, Debug)]
pub enum RecreateStep {
    /// Recreation succeeded: go on to acquire an image.
    ProceedToAcquire,
    /// Recreation was refused for this size: draw nothing this frame and
    /// retry on the next redraw.
    SkipFrame,
}

/// The outcome the device reports for an image acquisition. Any failure
/// other than "out of date" is fatal and never reported back.
#[derive(Clone, Copy, PartialEq, Eq, Structural, Debug)]
pub enum AcquireOutcome {
    /// The image at this position in the swapchain is ready to be drawn
    /// to.
    Acquired { image_index: usize },
    /// The swapchain no longer matches the surface; it must be recreated.
    OutOfDate,
}

/// What follows an acquisition attempt within the same redraw cycle.
#[derive(Clone, Copy, PartialEq, Eq, Structural, Debug)]
pub enum AcquireStep {
    /// Record and submit one frame against this image's framebuffer.
    Draw { image_index: usize },
    /// Draw nothing this frame; recreation runs on the next redraw.
    SkipFrame,
}

/// The outcome the device reports for submitting and presenting one
/// frame. A failure other than "out of date" is logged by the driver and
/// then degrades to recreation exactly as "out of date" does.
#[derive(Clone, Copy, PartialEq, Eq, Structural, Debug)]
pub enum SubmitOutcome {
    /// The frame was submitted and presented; its fence exists.
    Completed,
    /// The swapchain no longer matches the surface; the submission never
    /// reached the device.
    OutOfDate,
    /// Any other, non-fatal submission failure; treated as out of date.
    OtherFailure,
}

/// One frame's submission, as handed to the device: a single-use command
/// sequence, submitted exactly once and never replayed. Its commands may
/// begin executing only once `waits_on` has signalled (and the acquired
/// image is ready); after execution the image is presented and the fence
/// of submission `frame` is produced.
#[derive(Clone, Copy, PartialEq, Eq, Structural, Debug)]
pub struct Submission {
    /// This submission's number; frames are numbered from one.
    pub frame: u64,
    /// The acquired swapchain image to present.
    pub image_index: usize,
    /// The framebuffer the render pass is bound to — the one derived from
    /// the acquired image, in the current generation.
    pub framebuffer: FramebufferSlot,
    /// The completion handle of the previous frame; execution waits on
    /// it.
    pub waits_on: FrameFence,
    /// The viewport shared by every draw call of the frame.
    pub viewport: Viewport,
    /// The clear colour applied when the render pass begins.
    pub clear: ClearColor,
}

/// The state the presentation loop carries between events: the swapchain
/// generation and size, the framebuffer set derived from it, the pending
/// resize and close flags, and the retained fence of the last submitted
/// frame.
#[verifier::ext_equal]
pub struct PresentationLoop {
    /// How many times the swapchain has been recreated. Each recreation
    /// replaces the swapchain whole; images of different generations
    /// never mix.
    pub swapchain_generation: u64,
    /// The number of images in the current swapchain.
    pub image_count: usize,
    /// The size the current swapchain was created with.
    pub swapchain_extent: Extent,
    /// One framebuffer per swapchain image, rebuilt in lock-step with the
    /// swapchain, never partially.
    pub framebuffers: Vec<FramebufferSlot>,
    /// The generation the framebuffer set was built for.
    pub framebuffer_generation: u64,
    /// The viewport covering the current drawable surface.
    pub viewport: Viewport,
    /// The window's drawable size as last reported by the platform.
    pub window_extent: Extent,
    /// Whether the swapchain must be recreated before the next frame.
    pub stale: bool,
    /// Whether the user asked to close the window; once set, no further
    /// frame begins.
    pub closed: bool,
    /// How many frames have been submitted to the device so far.
    pub frames_submitted: u64,
    /// The completion handle of the most recently submitted frame.
    pub fence: FrameFence,
}

impl PresentationLoop {
    /// Well-formedness: the framebuffer set always belongs to the current
    /// swapchain generation and covers its images exactly; the viewport
    /// matches the swapchain's size; the swapchain matches the window
    /// unless marked stale; and the retained fence, when pending, is the
    /// fence of the most recently submitted frame.
    pub open spec fn wf(self) -> bool {
        &&& self.framebuffer_generation == self.swapchain_generation
        &&& self.framebuffers@ == spec_framebuffer_set(self.framebuffer_generation, self.image_count)
        &&& self.viewport == spec_viewport_for(self.swapchain_extent)
        &&& (!self.stale ==> self.swapchain_extent == self.window_extent)
        &&& (self.fence matches FrameFence::Pending { frame } ==> frame == self.frames_submitted
            && self.frames_submitted >= 1)
    }

    /// Sets up the loop state for the initial swapchain: `image_count`
    /// images at the window's current size, nothing submitted yet, and an
    /// already-complete handle in place of a first frame's fence.
    pub fn new(image_count: usize, extent: Extent) -> (s: Self)
        ensures
            s.wf(),
            s.swapchain_generation == 0,
            s.image_count == image_count,
            s.swapchain_extent == extent,
            s.window_extent == extent,
            !s.stale,
            !s.closed,
            s.frames_submitted == 0,
            s.fence == FrameFence::AlreadyComplete,
    {
        let (framebuffers, viewport) = window_size_dependent_setup(0, image_count, extent);
        PresentationLoop {
            swapchain_generation: 0,
            image_count,
            swapchain_extent: extent,
            framebuffers,
            framebuffer_generation: 0,
            viewport,
            window_extent: extent,
            stale: false,
            closed: false,
            frames_submitted: 0,
            fence: FrameFence::AlreadyComplete,
        }
    }

    /// Consumes one window event and decides what the driver does next.
    /// A resize only records the new size and marks the swapchain stale —
    /// recreation is deferred to the next redraw. A close request is
    /// terminal. A redraw request starts one redraw cycle unless the loop
    /// is closed.
    pub fn handle_event(&mut self, event: LoopEvent) -> (r: EventResponse)
        requires
            old(self).wf(),
        ensures
            final(self).wf(),
            event matches LoopEvent::Resized { extent } ==> *final(self) == spec_resize(
                *old(self),
                extent,
            ) && r == EventResponse::Continue,
            event is CloseRequested ==> *final(self) == spec_close(*old(self)) && r
                == EventResponse::Exit,
            event is EventsCleared || event is RedrawRequested || event is Other ==> *final(self)
                == *old(self),
            event is EventsCleared ==> r == (if old(self).closed {
                EventResponse::Exit
            } else {
                EventResponse::RequestRedraw
            }),
            event is RedrawRequested ==> r == spec_redraw_response(*old(self)),
            event is Other ==> r == EventResponse::Continue,
    {
        match event {
            LoopEvent::EventsCleared => {
                if self.closed {
                    EventResponse::Exit
                } else {
                    EventResponse::RequestRedraw
                }
            },
            LoopEvent::RedrawRequested => {
                if self.closed {
                    EventResponse::Exit
                } else if self.stale {
                    EventResponse::Redraw { plan: RedrawPlan::Recreate { extent: self.window_extent } }
                } else {
                    EventResponse::Redraw { plan: RedrawPlan::AcquireImage }
                }
            },
            LoopEvent::Resized { extent } => {
                self.window_extent = extent;
                self.stale = true;
                proof {
                    assert(*self =~= spec_resize(*old(self), extent));
                }
                EventResponse::Continue
            },
            LoopEvent::CloseRequested => {
                self.closed = true;
                proof {
                    assert(*self =~= spec_close(*old(self)));
                }
                EventResponse::Exit
            },
            LoopEvent::Other => EventResponse::Continue,
        }
    }

    /// Applies the device's answer to the recreation that a redraw cycle
    /// began while the swapchain was stale. On success the swapchain
    /// generation advances and the framebuffer set and viewport are
    /// rebuilt with it, in the same step, at the window's current size;
    /// the cycle then goes on to acquire an image. When the size is
    /// unsupported nothing changes — the state stays stale and this frame
    /// draws nothing.
    pub fn apply_recreate_outcome(&mut self, outcome: RecreateOutcome) -> (step: RecreateStep)
        requires
            old(self).wf(),
            old(self).stale,
            old(self).swapchain_generation < u64::MAX,
        ensures
            final(self).wf(),
            outcome is DimensionsUnsupported ==> *final(self) == *old(self) && step
                == RecreateStep::SkipFrame,
            outcome matches RecreateOutcome::Created { image_count } ==> recreate_created_rel(
                *old(self),
                *final(self),
                image_count,
            ) && step == RecreateStep::ProceedToAcquire,
    {
        match outcome {
            RecreateOutcome::DimensionsUnsupported => RecreateStep::SkipFrame,
            RecreateOutcome::Created { image_count } => {
                self.swapchain_generation = self.swapchain_generation + 1;
                self.image_count = image_count;
                self.swapchain_extent = self.window_extent;
                let (framebuffers, viewport) = window_size_dependent_setup(
                    self.swapchain_generation,
                    image_count,
                    self.window_extent,
                );
                self.framebuffers = framebuffers;
                self.framebuffer_generation = self.swapchain_generation;
                self.viewport = viewport;
                self.stale = false;
                RecreateStep::ProceedToAcquire
            },
        }
    }

    /// Applies the device's answer to an image acquisition. A successful
    /// acquisition leaves the state as it is and names the image to draw
    /// to; "out of date" marks the swapchain stale and aborts the frame
    /// without drawing.
    pub fn apply_acquire_outcome(&mut self, outcome: AcquireOutcome) -> (step: AcquireStep)
        requires
            old(self).wf(),
            !old(self).stale,
            outcome matches AcquireOutcome::Acquired { image_index } ==> image_index < old(
                self,
            ).image_count,
        ensures
            final(self).wf(),
            outcome is OutOfDate ==> *final(self) == spec_mark_stale(*old(self)) && step
                == AcquireStep::SkipFrame,
            outcome matches AcquireOutcome::Acquired { image_index } ==> *final(self) == *old(self)
                && step == (AcquireStep::Draw { image_index }),
    {
        match outcome {
            AcquireOutcome::Acquired { image_index } => AcquireStep::Draw { image_index },
            AcquireOutcome::OutOfDate => {
                self.stale = true;
                proof {
                    assert(*self =~= spec_mark_stale(*old(self)));
                }
                AcquireStep::SkipFrame
            },
        }
    }

    /// Plans the one submission of this frame, against the acquired
    /// image: the render pass bound to that image's framebuffer of the
    /// current generation, the fixed clear colour, the shared viewport,
    /// and a wait on the previous frame's fence.
    pub fn plan_submission(&self, image_index: usize) -> (s: Submission)
        requires
            self.wf(),
            image_index < self.image_count,
            self.frames_submitted < u64::MAX,
        ensures
            s == spec_submission(*self, image_index),
    {
        proof {
            assert(self.framebuffers@.len() == self.image_count);
        }
        Submission {
            frame: self.frames_submitted + 1,
            image_index,
            framebuffer: self.framebuffers[image_index],
            waits_on: self.fence,
            viewport: self.viewport,
            clear: clear_color(),
        }
    }

    /// Applies the device's answer to the submission planned by
    /// `plan_submission`, after the driver has blocked on the new fence.
    /// On completion the frame counts as submitted and its fence is
    /// retained for the next frame to wait on. When the flush reports the
    /// swapchain out of date — or fails in any other non-fatal way — the
    /// submission never executed: the swapchain is marked stale and the
    /// retained handle is replaced by an already-complete one, so the
    /// next frame does not wait on a submission that never happened.
    pub fn complete_submission(&mut self, outcome: SubmitOutcome)
        requires
            old(self).wf(),
            old(self).frames_submitted < u64::MAX,
        ensures
            final(self).wf(),
            outcome is Completed ==> *final(self) == spec_submission_completed(*old(self)),
            outcome is OutOfDate || outcome is OtherFailure ==> *final(self)
                == spec_submission_failed(*old(self)),
    {
        match outcome {
            SubmitOutcome::Completed => {
                self.frames_submitted = self.frames_submitted + 1;
                self.fence = FrameFence::Pending { frame: self.frames_submitted };
                proof {
                    assert(*self =~= spec_submission_completed(*old(self)));
                }
            },
            SubmitOutcome::OutOfDate | SubmitOutcome::OtherFailure => {
                self.stale = true;
                self.fence = FrameFence::AlreadyComplete;
                proof {
                    assert(*self =~= spec_submission_failed(*old(self)));
                }
            },
        }
    }
}

/// The state after a resize notification: the new size is recorded and
/// the swapchain is stale; nothing else changes.
pub open spec fn spec_resize(s: PresentationLoop, extent: Extent) -> PresentationLoop {
    PresentationLoop { window_extent: extent, stale: true, ..s }
}

/// The state after a close request: terminal; nothing else changes.
pub open spec fn spec_close(s: PresentationLoop) -> PresentationLoop {
    PresentationLoop { closed: true, ..s }
}

/// The state after the device reports the swapchain out of date: stale;
/// nothing else changes.
pub open spec fn spec_mark_stale(s: PresentationLoop) -> PresentationLoop {
    PresentationLoop { stale: true, ..s }
}

/// What a redraw request is answered with: exit when closed, otherwise
/// recreate at the window's current size when stale, otherwise acquire.
pub open spec fn spec_redraw_response(s: PresentationLoop) -> EventResponse {
    if s.closed {
        EventResponse::Exit
    } else if s.stale {
        EventResponse::Redraw { plan: RedrawPlan::Recreate { extent: s.window_extent } }
    } else {
        EventResponse::Redraw { plan: RedrawPlan::AcquireImage }
    }
}

/// How a successful recreation relates the state before it to the state
/// after it: the generation advances by one, the swapchain now has
/// `image_count` images at the window's current size, the framebuffer set
/// and viewport are rebuilt for the new generation in the same step, the
/// staleness is consumed, and everything else — including the retained
/// fence — is kept.
pub open spec fn recreate_created_rel(
    pre: PresentationLoop,
    post: PresentationLoop,
    image_count: usize,
) -> bool {
    &&& post.swapchain_generation == pre.swapchain_generation + 1
    &&& post.image_count == image_count
    &&& post.swapchain_extent == pre.window_extent
    &&& post.framebuffer_generation == post.swapchain_generation
    &&& post.framebuffers@ == spec_framebuffer_set(post.framebuffer_generation, image_count)
    &&& post.viewport == spec_viewport_for(pre.window_extent)
    &&& !post.stale
    &&& post.closed == pre.closed
    &&& post.window_extent == pre.window_extent
    &&& post.frames_submitted == pre.frames_submitted
    &&& post.fence == pre.fence
}

/// The submission planned in state `s` for the acquired image: numbered
/// one past the last submitted frame, bound to that image's framebuffer,
/// waiting on the retained fence, with the shared viewport and the fixed
/// clear colour.
pub open spec fn spec_submission(s: PresentationLoop, image_index: usize) -> Submission {
    Submission {
        frame: (s.frames_submitted + 1) as u64,
        image_index,
        framebuffer: s.framebuffers@[image_index as int],
        waits_on: s.fence,
        viewport: s.viewport,
        clear: spec_clear_color(),
    }
}

/// The state after a completed submission: one more frame submitted, and
/// that frame's fence retained; nothing else changes.
pub open spec fn spec_submission_completed(s: PresentationLoop) -> PresentationLoop {
    PresentationLoop {
        frames_submitted: (s.frames_submitted + 1) as u64,
        fence: FrameFence::Pending { frame: (s.frames_submitted + 1) as u64 },
        ..s
    }
}

/// The state after a submission whose flush failed without being fatal:
/// the swapchain is stale and an already-complete handle replaces the
/// fence of the submission that never executed; nothing else changes.
pub open spec fn spec_submission_failed(s: PresentationLoop) -> PresentationLoop {
    PresentationLoop { stale: true, fence: FrameFence::AlreadyComplete, ..s }
}

} // verus!
