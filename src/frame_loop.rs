//! The decisions of the swapchain present loop: when to recreate the
//! swapchain, when to rebuild framebuffers, what to draw and when to stop.
//! The driver performs each requested step and reports how it went.
use vstd::prelude::*;

verus! {

/// What the present loop asks its driver to do next.
#[derive(PartialEq, Eq, Structural, Clone, Copy, Debug)]
pub enum FrameStep {
    /// Release finished GPU work, then call `start_frame`.
    StartFrame,
    /// Read the window's inner size, recreate the swapchain with it, then
    /// call `swapchain_recreated`.
    RecreateSwapchain,
    /// Build one framebuffer per swapchain image, then call `framebuffers_built`.
    BuildFramebuffers,
    /// Acquire the next swapchain image, then call `image_acquired`.
    AcquireImage,
    /// Draw into swapchain image `image_num` through a viewport of
    /// `width` x `height`, present it, poll the window's events, then call
    /// `events_polled`.
    DrawAndPresent { image_num: usize, width: u32, height: u32 },
    /// The window was closed: leave the loop.
    Exit,
    /// An error the loop does not recover from: stop with it.
    Abort,
}

/// How an attempt to recreate the swapchain ended.
#[derive(PartialEq, Eq, Structural, Clone, Copy, Debug)]
pub enum RecreateOutcome {
    Recreated,
    /// The surface does not accept the requested dimensions (for instance
    /// while the window is being resized); try again on a later frame.
    UnsupportedDimensions,
    Failed,
}

/// How an attempt to acquire the next swapchain image ended.
#[derive(PartialEq, Eq, Structural, Clone, Copy, Debug)]
pub enum AcquireOutcome {
    Acquired(usize),
    /// The swapchain no longer matches the surface and must be recreated.
    OutOfDate,
    Failed,
}

/// State carried from one step of the present loop to the next.
#[derive(PartialEq, Eq, Structural, Clone, Copy, Debug)]
pub struct FrameLoop {
    /// Dimensions of the swapchain images, in pixels.
    pub width: u32,
    pub height: u32,
    /// The swapchain must be recreated before the next draw.
    pub recreate_swapchain: bool,
    /// The framebuffers match the current swapchain images.
    pub has_framebuffers: bool,
}

/// The first step of a frame taken in state `s`.
pub open spec fn frame_entry(s: FrameLoop) -> FrameStep {
    if s.recreate_swapchain {
        FrameStep::RecreateSwapchain
    } else if !s.has_framebuffers {
        FrameStep::BuildFramebuffers
    } else {
        FrameStep::AcquireImage
    }
}

impl FrameLoop {
    /// The loop's state once the swapchain has first been created: its
    /// dimensions are the surface's current extent where the surface fixes
    /// one, and the window's inner size otherwise. No framebuffer exists yet.
    pub fn new(inner_width: u32, inner_height: u32, current_extent: Option<(u32, u32)>) -> (r:
        FrameLoop)
        ensures
            current_extent matches Some((w, h)) ==> r.width == w && r.height == h,
            current_extent is None ==> r.width == inner_width && r.height == inner_height,
            !r.recreate_swapchain,
            !r.has_framebuffers,
    {
        let (width, height) = match current_extent {
            Some((w, h)) => (w, h),
            None => (inner_width, inner_height),
        };
        FrameLoop { width, height, recreate_swapchain: false, has_framebuffers: false }
    }

    /// The first step of a frame, once finished GPU work is released: a
    /// pending recreation first, then missing framebuffers, else the next
    /// image.
    pub fn start_frame(&mut self) -> (r: FrameStep)
        ensures
            *final(self) == *old(self),
            r == frame_entry(*old(self)),
    {
        if self.recreate_swapchain {
            FrameStep::RecreateSwapchain
        } else if !self.has_framebuffers {
            FrameStep::BuildFramebuffers
        } else {
            FrameStep::AcquireImage
        }
    }

    /// Takes in the window's inner size that was read for the recreation,
    /// and how the recreation ended. A new swapchain invalidates the
    /// framebuffers; unsupported dimensions drop the request until the
    /// window asks again; any other failure stops the loop.
    pub fn swapchain_recreated(&mut self, width: u32, height: u32, outcome: RecreateOutcome) -> (r:
        FrameStep)
        ensures
            outcome == RecreateOutcome::Recreated ==> *final(self) == (FrameLoop {
                width,
                height,
                recreate_swapchain: false,
                has_framebuffers: false,
            }) && r == FrameStep::BuildFramebuffers,
            outcome == RecreateOutcome::UnsupportedDimensions ==> *final(self) == (FrameLoop {
                width,
                height,
                recreate_swapchain: false,
                has_framebuffers: old(self).has_framebuffers,
            }) && r == FrameStep::StartFrame,
            outcome == RecreateOutcome::Failed ==> *final(self) == *old(self) && r
                == FrameStep::Abort,
    {
        match outcome {
            RecreateOutcome::Recreated => {
                self.width = width;
                self.height = height;
                self.recreate_swapchain = false;
                self.has_framebuffers = false;
                FrameStep::BuildFramebuffers
            },
            RecreateOutcome::UnsupportedDimensions => {
                self.width = width;
                self.height = height;
                self.recreate_swapchain = false;
                FrameStep::StartFrame
            },
            RecreateOutcome::Failed => FrameStep::Abort,
        }
    }

    /// The framebuffers now match the swapchain images: acquire an image.
    pub fn framebuffers_built(&mut self) -> (r: FrameStep)
        ensures
            *final(self) == (FrameLoop { has_framebuffers: true, ..*old(self) }),
            r == FrameStep::AcquireImage,
    {
        self.has_framebuffers = true;
        FrameStep::AcquireImage
    }

    /// Takes in how acquiring the next image ended: draw into an acquired
    /// image at the swapchain's dimensions; an out-of-date swapchain is
    /// recreated on a new frame; any other failure stops the loop.
    pub fn image_acquired(&mut self, outcome: AcquireOutcome) -> (r: FrameStep)
        ensures
            outcome matches AcquireOutcome::Acquired(n) ==> *final(self) == *old(self) && r
                == (FrameStep::DrawAndPresent {
                image_num: n,
                width: old(self).width,
                height: old(self).height,
            }),
            outcome == AcquireOutcome::OutOfDate ==> *final(self) == (FrameLoop {
                recreate_swapchain: true,
                ..*old(self)
            }) && r == FrameStep::StartFrame,
            outcome == AcquireOutcome::Failed ==> *final(self) == *old(self) && r
                == FrameStep::Abort,
    {
        match outcome {
            AcquireOutcome::Acquired(n) => FrameStep::DrawAndPresent {
                image_num: n,
                width: self.width,
                height: self.height,
            },
            AcquireOutcome::OutOfDate => {
                self.recreate_swapchain = true;
                FrameStep::StartFrame
            },
            AcquireOutcome::Failed => FrameStep::Abort,
        }
    }

    /// Takes in what the window reported since the last poll: whether it
    /// was closed, and whether it was resized. A resize asks for a new
    /// swapchain; a close ends the loop, else a new frame starts.
    pub fn events_polled(&mut self, closed: bool, resized: bool) -> (r: FrameStep)
        ensures
            *final(self) == (FrameLoop {
                recreate_swapchain: old(self).recreate_swapchain || resized,
                ..*old(self)
            }),
            closed ==> r == FrameStep::Exit,
            !closed ==> r == FrameStep::StartFrame,
    {
        if resized {
            self.recreate_swapchain = true;
        }
        if closed {
            FrameStep::Exit
        } else {
            FrameStep::StartFrame
        }
    }
}

} // verus!
