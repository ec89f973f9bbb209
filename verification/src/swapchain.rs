use vstd::prelude::*;

verus! {

/// The outcome of asking the swapchain for the next image.
#[derive(Debug, Clone, Copy, PartialEq, Eq, Structural)]
pub enum AcquireOutcome {
    /// The image with this index is ready; `suboptimal` when the swapchain
    /// no longer matches the surface exactly.
    Acquired { image: u32, suboptimal: bool },
    /// The swapchain no longer fits the surface.
    OutOfDate,
    /// Any other failure.
    Failed,
}

/// What to do after acquiring.
#[derive(Debug, Clone, Copy, PartialEq, Eq, Structural)]
pub enum AcquireStep {
    /// Draw into this image.
    Draw { image: u32 },
    /// Give up on this frame.
    SkipFrame,
    /// Stop with an error.
    Fail,
}

/// The outcome of submitting a frame and signalling its fence.
#[derive(Debug, Clone, Copy, PartialEq, Eq, Structural)]
pub enum FlushOutcome {
    Flushed,
    OutOfDate,
    Failed,
}

/// What becomes of the image's fence slot after a submission.
#[derive(Debug, Clone, Copy, PartialEq, Eq, Structural)]
pub enum FenceSlot {
    /// Keep the new fence in the slot.
    Store,
    /// Leave the slot empty.
    Empty,
    /// Leave the slot empty and report the failure.
    EmptyAndReport,
}

/// The window-level events the swapchain loop reacts to.
#[derive(Debug, Clone, Copy, PartialEq, Eq, Structural)]
pub enum SwapchainEvent {
    CloseRequested,
    Resized,
    LoopDestroyed,
    MainEventsCleared,
    Other,
}

/// What a window-level event leads to.
#[derive(Debug, Clone, Copy, PartialEq, Eq, Structural)]
pub enum SwapchainEventStep {
    Exit,
    Nothing,
    ReportClean,
    /// Draw a frame; `recreate_swapchain` and `rebuild_pipeline` tell what has
    /// to be built anew first.
    DrawFrame { recreate_swapchain: bool, rebuild_pipeline: bool },
}

/// The frame-to-frame flags of the swapchain loop.
pub struct RenderState {
    pub window_resized: bool,
    pub recreate_swapchain: bool,
    pub previous_fence_i: usize,
}

impl RenderState {
    /// Nothing to rebuild; the first frame waits on slot 0.
    pub fn new() -> (s: Self)
        ensures
            !s.window_resized,
            !s.recreate_swapchain,
            s.previous_fence_i == 0,
    {
        Self { window_resized: false, recreate_swapchain: false, previous_fence_i: 0 }
    }

    /// Reacts to a window-level event. A resize only marks the window;
    /// before a frame is drawn the marks are taken: the swapchain is rebuilt
    /// when either mark was set, and the pipeline too when the window was
    /// resized.
    pub fn handle_event(&mut self, event: SwapchainEvent) -> (step: SwapchainEventStep)
        ensures
            event == SwapchainEvent::CloseRequested ==> step == SwapchainEventStep::Exit && *final(self) == *old(self),
            event == SwapchainEvent::Resized ==> step == SwapchainEventStep::Nothing
                && final(self).window_resized
                && final(self).recreate_swapchain == old(self).recreate_swapchain
                && final(self).previous_fence_i == old(self).previous_fence_i,
            event == SwapchainEvent::LoopDestroyed ==> step == SwapchainEventStep::ReportClean && *final(self) == *old(self),
            event == SwapchainEvent::Other ==> step == SwapchainEventStep::Nothing && *final(self) == *old(self),
            event == SwapchainEvent::MainEventsCleared ==> step == (SwapchainEventStep::DrawFrame {
                recreate_swapchain: old(self).window_resized || old(self).recreate_swapchain,
                rebuild_pipeline: old(self).window_resized,
            }) && !final(self).window_resized
                && !final(self).recreate_swapchain
                && final(self).previous_fence_i == old(self).previous_fence_i,
    {
        match event {
            SwapchainEvent::CloseRequested => SwapchainEventStep::Exit,
            SwapchainEvent::Resized => {
                self.window_resized = true;
                SwapchainEventStep::Nothing
            },
            SwapchainEvent::LoopDestroyed => SwapchainEventStep::ReportClean,
            SwapchainEvent::MainEventsCleared => {
                let recreate = self.window_resized || self.recreate_swapchain;
                let rebuild = self.window_resized;
                if recreate {
                    self.recreate_swapchain = false;
                    if self.window_resized {
                        self.window_resized = false;
                    }
                }
                SwapchainEventStep::DrawFrame { recreate_swapchain: recreate, rebuild_pipeline: rebuild }
            },
            SwapchainEvent::Other => SwapchainEventStep::Nothing,
        }
    }

    /// Reacts to the outcome of acquiring the next image: an out-of-date
    /// swapchain is marked for a rebuild and the frame is skipped; a
    /// suboptimal one is marked and the frame drawn.
    pub fn acquired(&mut self, outcome: AcquireOutcome) -> (step: AcquireStep)
        ensures
            final(self).window_resized == old(self).window_resized,
            final(self).previous_fence_i == old(self).previous_fence_i,
            match outcome {
                AcquireOutcome::Acquired { image, suboptimal } => step == (AcquireStep::Draw { image })
                    && final(self).recreate_swapchain == (old(self).recreate_swapchain || suboptimal),
                AcquireOutcome::OutOfDate => step == AcquireStep::SkipFrame && final(self).recreate_swapchain,
                AcquireOutcome::Failed => step == AcquireStep::Fail && final(self).recreate_swapchain == old(self).recreate_swapchain,
            },
    {
        match outcome {
            AcquireOutcome::Acquired { image, suboptimal } => {
                if suboptimal {
                    self.recreate_swapchain = true;
                }
                AcquireStep::Draw { image }
            },
            AcquireOutcome::OutOfDate => {
                self.recreate_swapchain = true;
                AcquireStep::SkipFrame
            },
            AcquireOutcome::Failed => AcquireStep::Fail,
        }
    }

    /// Reacts to the outcome of submitting the frame drawn into `image`: the
    /// fence is kept on success; an out-of-date swapchain is marked for a
    /// rebuild. The next frame waits on this image's slot.
    pub fn flushed(&mut self, image: u32, outcome: FlushOutcome) -> (slot: FenceSlot)
        ensures
            final(self).previous_fence_i == image,
            final(self).window_resized == old(self).window_resized,
            match outcome {
                FlushOutcome::Flushed => slot == FenceSlot::Store && final(self).recreate_swapchain == old(self).recreate_swapchain,
                FlushOutcome::OutOfDate => slot == FenceSlot::Empty && final(self).recreate_swapchain,
                FlushOutcome::Failed => slot == FenceSlot::EmptyAndReport && final(self).recreate_swapchain == old(self).recreate_swapchain,
            },
    {
        let slot = match outcome {
            FlushOutcome::Flushed => FenceSlot::Store,
            FlushOutcome::OutOfDate => {
                self.recreate_swapchain = true;
                FenceSlot::Empty
            },
            FlushOutcome::Failed => FenceSlot::EmptyAndReport,
        };
        self.previous_fence_i = image as usize;
        slot
    }
}

} // verus!
