//! The presentable image chain and its acquire / present cycle.

use vstd::prelude::*;
use crate::error::RenderError;
use crate::gate::SynchronizationGate;
use crate::signal::OrderingSignal;

verus! {

/// What the device answered to a request for the next image.
#[derive(Clone, Copy, Debug, PartialEq, Eq, Structural)]
pub enum AcquireOutcome {
    /// An image is available. A suboptimal image can still be drawn to, but
    /// the chain should be rebuilt before the next frame.
    Image { index: usize, suboptimal: bool },
    /// The chain no longer matches the surface.
    OutOfDate,
    /// No image became available within the bounded timeout.
    Timeout,
    /// The surface is gone.
    Lost,
}

/// What the device answered to a present request.
#[derive(Clone, Copy, Debug, PartialEq, Eq, Structural)]
pub enum PresentOutcome {
    /// The image was queued for display.
    Presented,
    /// The chain no longer matches the surface; the image may not be shown.
    OutOfDate,
    /// The surface is gone.
    Lost,
}

/// What the device answered to a submission.
#[derive(Clone, Copy, Debug, PartialEq, Eq, Structural)]
pub enum SubmitOutcome {
    /// The commands were handed to the device.
    Submitted,
    /// The submission was rejected: the device is lost.
    DeviceLost,
    /// The pass was given up before it was submitted.
    Aborted,
}

/// The state of the surface: the depth of the image chain, its size, whether
/// it still matches the window, and which image is acquired.
#[derive(Clone, Copy, Debug, PartialEq, Eq, Structural)]
pub struct SurfacePresenter {
    image_count: usize,
    width: u32,
    height: u32,
    valid: bool,
    frame_limit: bool,
    generation: u64,
    active: Option<usize>,
    acquire_signal: Option<OrderingSignal>,
    frame_counter: u64,
}

impl SurfacePresenter {
    /// Depth of the image chain.
    pub closed spec fn spec_image_count(&self) -> usize {
        self.image_count
    }

    /// Width of the surface in pixels.
    pub closed spec fn spec_width(&self) -> u32 {
        self.width
    }

    /// Height of the surface in pixels.
    pub closed spec fn spec_height(&self) -> u32 {
        self.height
    }

    /// The chain still matches the surface.
    pub closed spec fn spec_is_valid(&self) -> bool {
        self.valid
    }

    /// Presentation is paced to the display.
    pub closed spec fn spec_frame_limit(&self) -> bool {
        self.frame_limit
    }

    /// How often the chain was rebuilt.
    pub closed spec fn spec_generation(&self) -> u64 {
        self.generation
    }

    /// The image that is acquired and not yet handed back for display.
    pub closed spec fn spec_active_image(&self) -> Option<usize> {
        self.active
    }

    /// The ordering signal of the acquisition, until the composite takes it.
    pub closed spec fn spec_acquire_signal(&self) -> Option<OrderingSignal> {
        self.acquire_signal
    }

    /// How many frames were handed to the presentation engine.
    pub closed spec fn spec_frame_counter(&self) -> u64 {
        self.frame_counter
    }

    /// The chain is not empty, the active image is one of the chain, and an
    /// acquisition signal belongs to an active image.
    pub open spec fn wf(&self) -> bool {
        &&& self.spec_image_count() >= 1
        &&& self.spec_active_image() matches Some(i) ==> i < self.spec_image_count()
        &&& self.spec_acquire_signal() is Some ==> self.spec_active_image() is Some
    }

    /// The surface after an acquisition answered with `outcome`, where
    /// `signal` is the ordering signal that an acquired image gets.
    pub closed spec fn spec_acquired(&self, outcome: AcquireOutcome, signal: OrderingSignal) -> SurfacePresenter {
        match outcome {
            AcquireOutcome::Image { index, suboptimal } => if self.valid && index < self.image_count {
                SurfacePresenter {
                    active: Some(index),
                    acquire_signal: Some(signal),
                    valid: !suboptimal,
                    ..*self
                }
            } else {
                SurfacePresenter { valid: false, ..*self }
            },
            AcquireOutcome::OutOfDate => SurfacePresenter { valid: false, ..*self },
            AcquireOutcome::Timeout => *self,
            AcquireOutcome::Lost => *self,
        }
    }

    /// The surface after the active image was handed back with `outcome`.
    pub closed spec fn spec_presented(&self, outcome: PresentOutcome) -> SurfacePresenter {
        SurfacePresenter {
            active: None,
            acquire_signal: None,
            valid: self.valid && outcome == PresentOutcome::Presented,
            frame_counter: (self.frame_counter + 1) as u64,
            ..*self
        }
    }

    /// The surface after the chain was rebuilt.
    pub closed spec fn spec_recreated(&self, width: u32, height: u32, image_count: usize) -> SurfacePresenter {
        SurfacePresenter {
            image_count,
            width,
            height,
            valid: true,
            generation: (self.generation + 1) as u64,
            active: None,
            acquire_signal: None,
            ..*self
        }
    }

    /// What each field is after an acquisition.
    pub broadcast proof fn lemma_acquired(&self, outcome: AcquireOutcome, signal: OrderingSignal)
        ensures
            #![trigger self.spec_acquired(outcome, signal)]
            ({
                let after = self.spec_acquired(outcome, signal);
                let taken = outcome matches AcquireOutcome::Image { index, .. } && self.spec_is_valid() && index
                    < self.spec_image_count();
                &&& after.spec_image_count() == self.spec_image_count()
                &&& after.spec_width() == self.spec_width()
                &&& after.spec_height() == self.spec_height()
                &&& after.spec_frame_limit() == self.spec_frame_limit()
                &&& after.spec_generation() == self.spec_generation()
                &&& after.spec_frame_counter() == self.spec_frame_counter()
                &&& taken ==> after.spec_active_image() == Some(outcome->index) && after.spec_acquire_signal()
                    == Some(signal) && after.spec_is_valid() == !outcome->suboptimal
                &&& !taken ==> after.spec_active_image() == self.spec_active_image()
                    && after.spec_acquire_signal() == self.spec_acquire_signal()
                &&& !taken && (outcome is Image || outcome is OutOfDate) ==> !after.spec_is_valid()
                &&& (outcome is Timeout || outcome is Lost) ==> after == *self
            }),
    {
    }

    /// What each field is after a present.
    pub broadcast proof fn lemma_presented(&self, outcome: PresentOutcome)
        ensures
            #![trigger self.spec_presented(outcome)]
            ({
                let after = self.spec_presented(outcome);
                &&& after.spec_image_count() == self.spec_image_count()
                &&& after.spec_width() == self.spec_width()
                &&& after.spec_height() == self.spec_height()
                &&& after.spec_frame_limit() == self.spec_frame_limit()
                &&& after.spec_generation() == self.spec_generation()
                &&& after.spec_frame_counter() == (self.spec_frame_counter() + 1) as u64
                &&& after.spec_active_image() is None
                &&& after.spec_acquire_signal() is None
                &&& after.spec_is_valid() == (self.spec_is_valid() && outcome == PresentOutcome::Presented)
            }),
    {
    }

    /// What each field is after the chain was rebuilt.
    pub broadcast proof fn lemma_recreated(&self, width: u32, height: u32, image_count: usize)
        ensures
            #![trigger self.spec_recreated(width, height, image_count)]
            ({
                let after = self.spec_recreated(width, height, image_count);
                &&& after.spec_image_count() == image_count
                &&& after.spec_width() == width
                &&& after.spec_height() == height
                &&& after.spec_frame_limit() == self.spec_frame_limit()
                &&& after.spec_generation() == (self.spec_generation() + 1) as u64
                &&& after.spec_frame_counter() == self.spec_frame_counter()
                &&& after.spec_active_image() is None
                &&& after.spec_acquire_signal() is None
                &&& after.spec_is_valid()
            }),
    {
    }

    /// A valid surface of the first generation with no image acquired.
    pub fn new(image_count: usize, width: u32, height: u32) -> (surface: SurfacePresenter)
        requires
            image_count >= 1,
        ensures
            surface.wf(),
            surface.spec_image_count() == image_count,
            surface.spec_width() == width,
            surface.spec_height() == height,
            surface.spec_is_valid(),
            surface.spec_frame_limit(),
            surface.spec_generation() == 0,
            surface.spec_active_image() is None,
            surface.spec_acquire_signal() is None,
            surface.spec_frame_counter() == 0,
    {
        SurfacePresenter {
            image_count,
            width,
            height,
            valid: true,
            frame_limit: true,
            generation: 0,
            active: None,
            acquire_signal: None,
            frame_counter: 0,
        }
    }

    /// Depth of the image chain.
    pub fn image_count(&self) -> (n: usize)
        ensures
            n == self.spec_image_count(),
    {
        self.image_count
    }

    /// At most this many frames can be in flight before the CPU has to wait.
    pub fn max_frames_in_flight(&self) -> (n: usize)
        ensures
            n == self.spec_image_count(),
    {
        self.image_count
    }

    /// Current size in pixels, width first.
    pub fn window_size(&self) -> (size: (u32, u32))
        ensures
            size.0 == self.spec_width(),
            size.1 == self.spec_height(),
    {
        (self.width, self.height)
    }

    /// True while the chain matches the surface.
    pub fn is_valid(&self) -> (b: bool)
        ensures
            b == self.spec_is_valid(),
    {
        self.valid
    }

    /// True when the chain has to be rebuilt before the next acquisition.
    pub fn is_swapchain_invalid(&self) -> (b: bool)
        ensures
            b == !self.spec_is_valid(),
    {
        !self.valid
    }

    /// True when presentation is paced to the display.
    pub fn frame_limit(&self) -> (b: bool)
        ensures
            b == self.spec_frame_limit(),
    {
        self.frame_limit
    }

    /// How often the chain was rebuilt.
    pub fn generation(&self) -> (g: u64)
        ensures
            g == self.spec_generation(),
    {
        self.generation
    }

    /// The acquired image, if there is one.
    pub fn get_image_number(&self) -> (image: Option<usize>)
        ensures
            image == self.spec_active_image(),
    {
        self.active
    }

    /// The ordering signal of the acquisition, until the composite takes it.
    pub fn acquire_signal(&self) -> (signal: Option<OrderingSignal>)
        ensures
            signal == self.spec_acquire_signal(),
    {
        self.acquire_signal
    }

    /// How many frames were handed to the presentation engine.
    pub fn frame_counter(&self) -> (n: u64)
        ensures
            n == self.spec_frame_counter(),
    {
        self.frame_counter
    }

    /// Marks the chain as out of date.
    pub fn invalidate_swapchain(&mut self)
        ensures
            !final(self).spec_is_valid(),
            final(self).spec_image_count() == old(self).spec_image_count(),
            final(self).spec_width() == old(self).spec_width(),
            final(self).spec_height() == old(self).spec_height(),
            final(self).spec_frame_limit() == old(self).spec_frame_limit(),
            final(self).spec_generation() == old(self).spec_generation(),
            final(self).spec_active_image() == old(self).spec_active_image(),
            final(self).spec_acquire_signal() == old(self).spec_acquire_signal(),
            final(self).spec_frame_counter() == old(self).spec_frame_counter(),
    {
        self.valid = false;
    }

    /// Records the new size of the window and marks the chain as out of date.
    pub fn update_window_size(&mut self, width: u32, height: u32)
        ensures
            !final(self).spec_is_valid(),
            final(self).spec_width() == width,
            final(self).spec_height() == height,
            final(self).spec_image_count() == old(self).spec_image_count(),
            final(self).spec_frame_limit() == old(self).spec_frame_limit(),
            final(self).spec_generation() == old(self).spec_generation(),
            final(self).spec_active_image() == old(self).spec_active_image(),
            final(self).spec_acquire_signal() == old(self).spec_acquire_signal(),
            final(self).spec_frame_counter() == old(self).spec_frame_counter(),
    {
        self.width = width;
        self.height = height;
        self.valid = false;
    }

    /// Switches the frame limit, which changes the present mode of the chain,
    /// and marks the chain as out of date.
    pub fn set_frame_limit(&mut self, limited: bool)
        ensures
            !final(self).spec_is_valid(),
            final(self).spec_frame_limit() == limited,
            final(self).spec_width() == old(self).spec_width(),
            final(self).spec_height() == old(self).spec_height(),
            final(self).spec_image_count() == old(self).spec_image_count(),
            final(self).spec_generation() == old(self).spec_generation(),
            final(self).spec_active_image() == old(self).spec_active_image(),
            final(self).spec_acquire_signal() == old(self).spec_acquire_signal(),
            final(self).spec_frame_counter() == old(self).spec_frame_counter(),
    {
        self.frame_limit = limited;
        self.valid = false;
    }

    /// The answer of an acquisition as a result.
    ///
    /// An image is accepted when the chain is valid and the index is one of
    /// the chain. An index from outside the chain, or any image while the
    /// chain is marked out of date, counts as an out-of-date chain.
    pub open spec fn spec_acquire_result(&self, outcome: AcquireOutcome) -> Result<usize, RenderError> {
        match outcome {
            AcquireOutcome::Image { index, suboptimal } => if self.spec_is_valid() && index
                < self.spec_image_count() {
                Ok(index)
            } else {
                Err(RenderError::SurfaceOutOfDate)
            },
            AcquireOutcome::OutOfDate => Err(RenderError::SurfaceOutOfDate),
            AcquireOutcome::Timeout => Err(RenderError::SurfaceTimeout),
            AcquireOutcome::Lost => Err(RenderError::SurfaceLost),
        }
    }

    /// Takes in the answer of the device to a request for the next image.
    ///
    /// On success the image becomes the active one and the acquisition gets
    /// an ordering signal, which the composite submission has to wait on. A
    /// suboptimal image is accepted and marks the chain for a rebuild. An
    /// out-of-date answer marks the chain for a rebuild; a timeout changes
    /// nothing.
    pub fn acquire_next(&mut self, outcome: AcquireOutcome, gate: &mut SynchronizationGate) -> (r: Result<
        usize,
        RenderError,
    >)
        requires
            old(self).wf(),
            old(self).spec_active_image() is None,
            old(gate).wf(),
            old(gate).spec_next_id() < u64::MAX,
        ensures
            final(self).wf(),
            final(gate).wf(),
            r == old(self).spec_acquire_result(outcome),
            *final(self) == old(self).spec_acquired(outcome, OrderingSignal { id: old(gate).spec_next_id() }),
            r is Ok ==> {
                &&& final(gate).spec_next_id() == old(gate).spec_next_id() + 1
                &&& !old(gate).outstanding_ids().contains(old(gate).spec_next_id())
                &&& final(gate).outstanding_ids() == old(gate).outstanding_ids().insert(old(gate).spec_next_id())
                &&& final(gate).spec_outstanding_count() == old(gate).spec_outstanding_count() + 1
                &&& final(gate).spec_issued() == old(gate).spec_issued() + 1
            },
            r is Err ==> {
                &&& final(gate).spec_next_id() == old(gate).spec_next_id()
                &&& final(gate).outstanding_ids() == old(gate).outstanding_ids()
                &&& final(gate).spec_outstanding_count() == old(gate).spec_outstanding_count()
                &&& final(gate).spec_issued() == old(gate).spec_issued()
            },
            final(gate).spec_consumed() == old(gate).spec_consumed(),
            final(gate).spec_discarded() == old(gate).spec_discarded(),
            final(gate).deferred_uploads() == old(gate).deferred_uploads(),
    {
        match outcome {
            AcquireOutcome::Image { index, suboptimal } => {
                if self.valid && index < self.image_count {
                    let signal = gate.issue_ordering();
                    self.active = Some(index);
                    self.acquire_signal = Some(signal);
                    if suboptimal {
                        self.valid = false;
                    }
                    Ok(index)
                } else {
                    self.valid = false;
                    Err(RenderError::SurfaceOutOfDate)
                }
            },
            AcquireOutcome::OutOfDate => {
                self.valid = false;
                Err(RenderError::SurfaceOutOfDate)
            },
            AcquireOutcome::Timeout => Err(RenderError::SurfaceTimeout),
            AcquireOutcome::Lost => Err(RenderError::SurfaceLost),
        }
    }

    /// Takes the ordering signal of the acquisition out of the surface.
    pub fn take_acquire_signal(&mut self) -> (signal: Option<OrderingSignal>)
        requires
            old(self).wf(),
        ensures
            final(self).wf(),
            signal == old(self).spec_acquire_signal(),
            final(self).spec_acquire_signal() is None,
            final(self).spec_active_image() == old(self).spec_active_image(),
            final(self).spec_is_valid() == old(self).spec_is_valid(),
            final(self).spec_image_count() == old(self).spec_image_count(),
            final(self).spec_width() == old(self).spec_width(),
            final(self).spec_height() == old(self).spec_height(),
            final(self).spec_frame_limit() == old(self).spec_frame_limit(),
            final(self).spec_generation() == old(self).spec_generation(),
            final(self).spec_frame_counter() == old(self).spec_frame_counter(),
    {
        let signal = self.acquire_signal;
        self.acquire_signal = None;
        signal
    }

    /// The answer of a present as a result: an out-of-date chain is not a
    /// failure of the frame.
    pub open spec fn spec_present_result(outcome: PresentOutcome) -> Result<(), RenderError> {
        match outcome {
            PresentOutcome::Presented => Ok(()),
            PresentOutcome::OutOfDate => Ok(()),
            PresentOutcome::Lost => Err(RenderError::SurfaceLost),
        }
    }

    /// Hands the active image back for display. The present waits on
    /// `wait_on`, which is consumed here. An out-of-date answer marks the
    /// chain for a rebuild before the next frame and is no failure of this
    /// one. The frame counter advances in every case.
    pub fn present(
        &mut self,
        image: usize,
        wait_on: OrderingSignal,
        outcome: PresentOutcome,
        gate: &mut SynchronizationGate,
    ) -> (r: Result<(), RenderError>)
        requires
            old(self).wf(),
            old(self).spec_active_image() == Some(image),
            old(self).spec_frame_counter() < u64::MAX,
            old(gate).wf(),
            old(gate).outstanding_ids().contains(wait_on.id),
        ensures
            final(self).wf(),
            final(gate).wf(),
            r == Self::spec_present_result(outcome),
            *final(self) == old(self).spec_presented(outcome),
            final(self).spec_frame_counter() == old(self).spec_frame_counter() + 1,
            final(gate).outstanding_ids() == old(gate).outstanding_ids().remove(wait_on.id),
            final(gate).spec_outstanding_count() + 1 == old(gate).spec_outstanding_count(),
            final(gate).spec_consumed() == old(gate).spec_consumed() + 1,
            final(gate).spec_next_id() == old(gate).spec_next_id(),
            final(gate).spec_issued() == old(gate).spec_issued(),
            final(gate).spec_discarded() == old(gate).spec_discarded(),
            final(gate).deferred_uploads() == old(gate).deferred_uploads(),
    {
        gate.consume(wait_on);
        self.active = None;
        self.acquire_signal = None;
        self.frame_counter = self.frame_counter + 1;
        match outcome {
            PresentOutcome::Presented => Ok(()),
            PresentOutcome::OutOfDate => {
                self.valid = false;
                Ok(())
            },
            PresentOutcome::Lost => {
                self.valid = false;
                Err(RenderError::SurfaceLost)
            },
        }
    }

    /// Takes in a rebuilt chain: a new generation of `image_count` images of
    /// the given size, valid, with no image acquired.
    pub fn recreate(&mut self, width: u32, height: u32, image_count: usize)
        requires
            image_count >= 1,
            old(self).spec_generation() < u64::MAX,
        ensures
            final(self).wf(),
            *final(self) == old(self).spec_recreated(width, height, image_count),
            final(self).spec_generation() == old(self).spec_generation() + 1,
            final(self).spec_is_valid(),
    {
        self.image_count = image_count;
        self.width = width;
        self.height = height;
        self.valid = true;
        self.generation = self.generation + 1;
        self.active = None;
        self.acquire_signal = None;
    }
}

} // verus!
