//! The frame scheduler: drives the fixed pass graph through one frame.
//!
//! The scheduler holds the surface state, the render targets and the signal
//! bookkeeping. A frame is a sequence of steps. Each step takes what the
//! device answered to the last request and returns what has to happen next.
//! The caller performs the device work; the scheduler decides.

use vstd::prelude::*;
use crate::context::FrameContext;
use crate::error::RenderError;
use crate::gate::{spec_joined, spec_upload_deferred, spec_upload_waits, SynchronizationGate};
use crate::pass::PassKind;
use crate::pool::{reclaimed, signals_of, PoolView, TargetPool};
use crate::signal::{slot_seq, CompletionSignal, OrderingSignal, UploadSignal};
use crate::surface::{AcquireOutcome, PresentOutcome, SubmitOutcome, SurfacePresenter};
use crate::target::{group_target_transitions, RenderTarget};

verus! {

broadcast use group_target_transitions;

/// How far the current frame has come.
#[derive(Clone, Copy, Debug, PartialEq, Eq, Structural)]
pub enum FrameStage {
    /// Between frames: no image is acquired.
    Idle,
    /// An image is acquired; nothing is recorded yet.
    Acquired,
    /// The passes of the frame are being recorded and submitted.
    Recording,
    /// Picker, shadow and overlay are submitted; the scene is still open.
    Joined,
    /// The ordering signals are handed to the composite submission.
    Compositing,
    /// The scene is submitted; the image waits to be presented.
    Composited,
    /// A fatal failure ended the run. Only `shutdown` is left.
    Halted,
}

/// What the driver has to do next.
#[derive(Clone, Copy, Debug, PartialEq, Eq, Structural)]
pub enum NextStep {
    /// Rebuild the chain and call `recreate`.
    Recreate,
    /// Ask the device for the next image and call `acquire_next`.
    Acquire,
    /// Call `begin_passes` and wait on what it returns.
    BeginPasses,
    /// Record and submit the passes, then call `join_passes`.
    JoinPasses,
    /// Call `join_signals`.
    JoinSignals,
    /// Submit the scene with the composite and call `finish_composite`.
    FinishComposite,
    /// Present the image and call `present`.
    Present,
    /// Call `shutdown`, wait on what it returns and stop.
    Shutdown,
}

/// The step that follows in a stage. Between frames an out-of-date chain is
/// rebuilt before anything is acquired; in the middle of a frame it is left
/// alone until the frame is over.
pub open spec fn spec_next_step(stage: FrameStage, valid: bool) -> NextStep {
    match stage {
        FrameStage::Idle => if valid {
            NextStep::Acquire
        } else {
            NextStep::Recreate
        },
        FrameStage::Acquired => NextStep::BeginPasses,
        FrameStage::Recording => NextStep::JoinPasses,
        FrameStage::Joined => NextStep::JoinSignals,
        FrameStage::Compositing => NextStep::FinishComposite,
        FrameStage::Composited => NextStep::Present,
        FrameStage::Halted => NextStep::Shutdown,
    }
}

/// Signals in the order in which a frame waits on them before it reuses its
/// targets: the acquired image's scene target first, then the rest of the
/// chain if the whole chain is drained, then the picker and shadow targets
/// of the image, then the overlay if it is rendered again.
pub open spec fn frame_waits(pool: PoolView, image: int, drain_chain: bool, overlay: bool) -> Seq<CompletionSignal> {
    slot_seq(pool.scene[image].spec_completion()) + (if drain_chain {
        signals_of(pool.scene.update(image, pool.scene[image].spec_reclaimed()))
    } else {
        Seq::empty()
    }) + slot_seq(pool.picker[image].spec_completion()) + slot_seq(pool.shadow[image].spec_completion()) + (if overlay {
        slot_seq(pool.overlay.spec_completion())
    } else {
        Seq::empty()
    })
}

/// The pool once the passes of a frame have been started: the targets of the
/// frame are reclaimed and recording, the scene chain is reclaimed if it is
/// drained, and an overlay that is not rendered again is left as it is.
pub open spec fn begun(pool: PoolView, image: int, drain_chain: bool, overlay: bool) -> PoolView {
    PoolView {
        scene: (if drain_chain {
            reclaimed(pool.scene)
        } else {
            pool.scene
        }).update(image, pool.scene[image].spec_reclaimed().spec_started()),
        picker: pool.picker.update(image, pool.picker[image].spec_reclaimed().spec_started()),
        shadow: pool.shadow.update(image, pool.shadow[image].spec_reclaimed().spec_started()),
        overlay: if overlay {
            pool.overlay.spec_reclaimed().spec_started()
        } else {
            pool.overlay
        },
    }
}

/// A recording target once its pass was submitted in `frame` with completion
/// signal `id`, or given up.
pub open spec fn settle(target: RenderTarget, submitted: bool, id: int, frame: u64) -> RenderTarget {
    if submitted {
        target.spec_finished(CompletionSignal { id: id as u64 }, frame)
    } else {
        target.spec_reclaimed()
    }
}

/// How many identifiers the submission of a pass takes: one for its
/// completion signal, one more for its ordering signal where it has one.
pub open spec fn ids_used(kind: PassKind, submitted: bool) -> int {
    if !submitted {
        0
    } else if kind.spec_emits_ordering() {
        2
    } else {
        1
    }
}

/// The pool once picker, shadow and overlay have been settled, in this
/// order, with identifiers taken from `first_id` on.
pub open spec fn settled(
    pool: PoolView,
    image: int,
    overlay_active: bool,
    picker: bool,
    shadow: bool,
    overlay: bool,
    first_id: int,
    frame: u64,
) -> PoolView {
    let shadow_id = first_id + ids_used(PassKind::Picker, picker);
    let overlay_id = shadow_id + ids_used(PassKind::Shadow, shadow);
    PoolView {
        scene: pool.scene,
        picker: pool.picker.update(image, settle(pool.picker[image], picker, first_id, frame)),
        shadow: pool.shadow.update(image, settle(pool.shadow[image], shadow, shadow_id, frame)),
        overlay: if overlay_active {
            settle(pool.overlay, overlay, overlay_id, frame)
        } else {
            pool.overlay
        },
    }
}

/// Exactly these targets are between `start` and `finish`: of the acquired
/// image the picker and shadow targets if `fan_out`, the scene target if
/// `scene`; and the overlay if `overlay`.
pub open spec fn recording_is(pool: PoolView, image: int, fan_out: bool, scene: bool, overlay: bool) -> bool {
    &&& forall|j: int|
        0 <= j < pool.scene.len() ==> (#[trigger] pool.scene[j]).spec_is_recording() == (scene && j == image)
    &&& forall|j: int|
        0 <= j < pool.picker.len() ==> (#[trigger] pool.picker[j]).spec_is_recording() == (fan_out && j == image)
    &&& forall|j: int|
        0 <= j < pool.shadow.len() ==> (#[trigger] pool.shadow[j]).spec_is_recording() == (fan_out && j == image)
    &&& pool.overlay.spec_is_recording() == overlay
}

/// No scene target is ahead of its shadow map: a scene target that holds the
/// output of a frame stands beside a shadow target that holds the output of
/// the same frame or of a later one, and no scene target holds the output of
/// a frame that has not begun.
pub open spec fn shadow_keeps_up(pool: PoolView, frame: u64) -> bool {
    forall|j: int|
        0 <= j < pool.scene.len() ==> {
            (#[trigger] pool.scene[j]).spec_rendered_frame() matches Some(rendered) ==> {
                &&& rendered <= frame
                &&& pool.shadow[j].spec_rendered_frame() matches Some(lit)
                &&& rendered <= lit
            }
        }
}

/// What the caller does between `begin_passes` and `join_passes`.
pub struct PassPlan {
    /// The acquired image, whose targets the passes write to.
    pub image: usize,
    /// Completion signals to wait on, in this order, before any pass records.
    pub waits: Vec<CompletionSignal>,
    /// Upload signals to wait on before any pass records.
    pub upload_waits: Vec<UploadSignal>,
    /// The overlay is rendered again; otherwise only picker, shadow and
    /// scene are recorded.
    pub overlay: bool,
    /// The overlay target is cleared before the overlay is rendered.
    pub clear_overlay: bool,
}

/// What the composite submission waits on and reads.
pub struct CompositePlan {
    pub image: usize,
    /// Ordering signals that the submission of the scene waits on, joined.
    pub wait_on: Vec<OrderingSignal>,
    /// The frame whose overlay output the composite reads, if there is one.
    pub overlay_frame: Option<u64>,
}

/// What the present waits on.
#[derive(Clone, Copy, Debug, PartialEq, Eq, Structural)]
pub struct PresentPlan {
    pub image: usize,
    /// The ordering signal of the composite submission.
    pub wait_on: OrderingSignal,
}

/// The render core of a run.
pub struct FrameScheduler {
    surface: SurfacePresenter,
    pool: TargetPool,
    gate: SynchronizationGate,
    stage: FrameStage,
    overlay_active: bool,
    buffers_shown: bool,
    shadow_signal: Option<OrderingSignal>,
    overlay_signal: Option<OrderingSignal>,
    composite_signal: Option<OrderingSignal>,
}

fn push_slot(waits: &mut Vec<CompletionSignal>, slot: Option<CompletionSignal>)
    ensures
        final(waits)@ == old(waits)@ + slot_seq(slot),
{
    match slot {
        Some(signal) => {
            waits.push(signal);
        },
        None => {},
    }
    assert(waits@ =~= old(waits)@ + slot_seq(slot));
}

impl FrameScheduler {
    /// The state of the surface.
    pub closed spec fn spec_surface(&self) -> SurfacePresenter {
        self.surface
    }

    /// The targets, as sequences.
    pub closed spec fn spec_pool(&self) -> PoolView {
        self.pool@
    }

    /// The signal bookkeeping.
    pub closed spec fn spec_gate(&self) -> SynchronizationGate {
        self.gate
    }

    /// How far the current frame has come.
    pub closed spec fn spec_stage(&self) -> FrameStage {
        self.stage
    }

    /// The overlay is rendered again in the current frame.
    pub closed spec fn spec_overlay_active(&self) -> bool {
        self.overlay_active
    }

    /// Intermediate buffers are displayed in the current frame.
    pub closed spec fn spec_buffers_shown(&self) -> bool {
        self.buffers_shown
    }

    /// The ordering signal of this frame's shadow submission, until joined.
    pub closed spec fn spec_shadow_signal(&self) -> Option<OrderingSignal> {
        self.shadow_signal
    }

    /// The ordering signal of this frame's overlay submission, until joined.
    pub closed spec fn spec_overlay_signal(&self) -> Option<OrderingSignal> {
        self.overlay_signal
    }

    /// The ordering signal of the composite submission, until presented.
    pub closed spec fn spec_composite_signal(&self) -> Option<OrderingSignal> {
        self.composite_signal
    }

    /// The acquired image.
    pub open spec fn spec_image(&self) -> int {
        self.spec_surface().spec_active_image()->0 as int
    }

    /// The number of the current frame.
    pub open spec fn spec_frame(&self) -> u64 {
        self.spec_surface().spec_frame_counter()
    }

    /// A frame can be begun: enough identifiers are left for its signals,
    /// and the frame counter can advance.
    pub open spec fn spec_has_headroom(&self) -> bool {
        &&& self.spec_gate().spec_next_id() + 8 <= u64::MAX
        &&& self.spec_surface().spec_frame_counter() < u64::MAX
    }

    /// The parts fit together: the pool belongs to the surface's chain and
    /// generation, and the slots that hold ordering signals are exactly the
    /// gate's outstanding ones.
    pub open spec fn wf(&self) -> bool {
        let pool = self.spec_pool();
        let surface = self.spec_surface();
        let gate = self.spec_gate();
        let a = surface.spec_acquire_signal();
        let s = self.spec_shadow_signal();
        let o = self.spec_overlay_signal();
        let c = self.spec_composite_signal();
        let image = self.spec_image();
        &&& surface.wf()
        &&& gate.wf()
        &&& shadow_keeps_up(pool, surface.spec_frame_counter())
        &&& pool.wf(
            surface.spec_image_count() as nat,
            surface.spec_generation(),
            pool.overlay.spec_width(),
            pool.overlay.spec_height(),
        )
        &&& match self.spec_stage() {
            FrameStage::Idle => {
                &&& surface.spec_active_image() is None
                &&& a is None && s is None && o is None && c is None
                &&& gate.outstanding_ids() == Set::<u64>::empty()
                &&& gate.spec_outstanding_count() == 0
                &&& recording_is(pool, image, false, false, false)
            },
            FrameStage::Halted => {
                &&& a is None && s is None && o is None && c is None
                &&& gate.outstanding_ids() == Set::<u64>::empty()
                &&& gate.spec_outstanding_count() == 0
                &&& recording_is(pool, image, false, false, false)
            },
            FrameStage::Acquired => {
                &&& surface.spec_active_image() is Some
                &&& a is Some && s is None && o is None && c is None
                &&& gate.outstanding_ids() == Set::<u64>::empty().insert(a->0.id)
                &&& gate.spec_outstanding_count() == 1
                &&& recording_is(pool, image, false, false, false)
                &&& gate.spec_next_id() + 7 <= u64::MAX
                &&& surface.spec_frame_counter() < u64::MAX
            },
            FrameStage::Recording => {
                &&& surface.spec_active_image() is Some
                &&& a is Some && s is None && o is None && c is None
                &&& gate.outstanding_ids() == Set::<u64>::empty().insert(a->0.id)
                &&& gate.spec_outstanding_count() == 1
                &&& recording_is(pool, image, true, true, self.spec_overlay_active())
                &&& gate.spec_next_id() + 7 <= u64::MAX
                &&& surface.spec_frame_counter() < u64::MAX
            },
            FrameStage::Joined => {
                &&& surface.spec_active_image() is Some
                &&& a is Some && s is Some && c is None
                &&& o is Some <==> self.spec_overlay_active()
                &&& a->0.id != s->0.id
                &&& o is Some ==> o->0.id != a->0.id && o->0.id != s->0.id
                &&& gate.outstanding_ids() == if o is Some {
                    Set::<u64>::empty().insert(a->0.id).insert(s->0.id).insert(o->0.id)
                } else {
                    Set::<u64>::empty().insert(a->0.id).insert(s->0.id)
                }
                &&& gate.spec_outstanding_count() == if o is Some {
                    3nat
                } else {
                    2nat
                }
                &&& recording_is(pool, image, false, true, false)
                &&& pool.shadow[image].spec_rendered_frame() == Some(surface.spec_frame_counter())
                &&& gate.spec_next_id() + 2 <= u64::MAX
                &&& surface.spec_frame_counter() < u64::MAX
            },
            FrameStage::Compositing => {
                &&& surface.spec_active_image() is Some
                &&& a is None && s is None && o is None && c is None
                &&& gate.outstanding_ids() == Set::<u64>::empty()
                &&& gate.spec_outstanding_count() == 0
                &&& recording_is(pool, image, false, true, false)
                &&& pool.shadow[image].spec_rendered_frame() == Some(surface.spec_frame_counter())
                &&& gate.spec_next_id() + 2 <= u64::MAX
                &&& surface.spec_frame_counter() < u64::MAX
            },
            FrameStage::Composited => {
                &&& surface.spec_active_image() is Some
                &&& a is None && s is None && o is None && c is Some
                &&& gate.outstanding_ids() == Set::<u64>::empty().insert(c->0.id)
                &&& gate.spec_outstanding_count() == 1
                &&& recording_is(pool, image, false, false, false)
                &&& pool.shadow[image].spec_rendered_frame() == Some(surface.spec_frame_counter())
                &&& pool.scene[image].spec_rendered_frame() == Some(surface.spec_frame_counter())
                &&& pool.scene[image].spec_is_submitted()
                &&& surface.spec_frame_counter() < u64::MAX
            },
        }
    }

    /// A scheduler for a chain of `image_count` images of the given size,
    /// with every target unused and nothing issued.
    pub fn new(image_count: usize, width: u32, height: u32) -> (scheduler: FrameScheduler)
        requires
            image_count >= 1,
        ensures
            scheduler.wf(),
            scheduler.spec_stage() == FrameStage::Idle,
            scheduler.spec_pool() == PoolView::fresh(image_count as nat, 0, width, height),
            scheduler.spec_pool().is_drained(),
            scheduler.spec_surface().spec_image_count() == image_count,
            scheduler.spec_surface().spec_width() == width,
            scheduler.spec_surface().spec_height() == height,
            scheduler.spec_surface().spec_is_valid(),
            scheduler.spec_surface().spec_generation() == 0,
            scheduler.spec_surface().spec_frame_counter() == 0,
            scheduler.spec_gate().spec_next_id() == 0,
            scheduler.spec_gate().spec_issued() == 0,
            scheduler.spec_gate().spec_consumed() == 0,
            scheduler.spec_gate().spec_discarded() == 0,
            scheduler.spec_has_headroom(),
    {
        proof {
            PoolView::lemma_fresh(image_count as nat, 0, width, height);
        }
        FrameScheduler {
            surface: SurfacePresenter::new(image_count, width, height),
            pool: TargetPool::new(image_count, 0, width, height),
            gate: SynchronizationGate::new(),
            stage: FrameStage::Idle,
            overlay_active: false,
            buffers_shown: false,
            shadow_signal: None,
            overlay_signal: None,
            composite_signal: None,
        }
    }

    /// How far the current frame has come.
    pub fn stage(&self) -> (stage: FrameStage)
        ensures
            stage == self.spec_stage(),
    {
        self.stage
    }

    /// The state of the surface.
    pub fn surface(&self) -> (surface: &SurfacePresenter)
        ensures
            *surface == self.spec_surface(),
    {
        &self.surface
    }

    /// The signal bookkeeping.
    pub fn gate(&self) -> (gate: &SynchronizationGate)
        ensures
            *gate == self.spec_gate(),
    {
        &self.gate
    }

    /// The render targets.
    pub fn pool(&self) -> (pool: &TargetPool)
        ensures
            pool@ == self.spec_pool(),
    {
        &self.pool
    }

    /// True when the overlay is rendered again in the current frame.
    pub fn overlay_active(&self) -> (b: bool)
        ensures
            b == self.spec_overlay_active(),
    {
        self.overlay_active
    }

    /// True when intermediate buffers are displayed in the current frame.
    pub fn buffers_shown(&self) -> (b: bool)
        ensures
            b == self.spec_buffers_shown(),
    {
        self.buffers_shown
    }

    /// The ordering signal of this frame's shadow submission, until joined.
    pub fn shadow_signal(&self) -> (signal: Option<OrderingSignal>)
        ensures
            signal == self.spec_shadow_signal(),
    {
        self.shadow_signal
    }

    /// The ordering signal of this frame's overlay submission, until joined.
    pub fn overlay_signal(&self) -> (signal: Option<OrderingSignal>)
        ensures
            signal == self.spec_overlay_signal(),
    {
        self.overlay_signal
    }

    /// The ordering signal of the composite submission, until presented.
    pub fn composite_signal(&self) -> (signal: Option<OrderingSignal>)
        ensures
            signal == self.spec_composite_signal(),
    {
        self.composite_signal
    }

    /// What the driver has to do next.
    pub fn next_step(&self) -> (step: NextStep)
        ensures
            step == spec_next_step(self.spec_stage(), self.spec_surface().spec_is_valid()),
            step == NextStep::Recreate ==> self.spec_stage() == FrameStage::Idle,
    {
        match self.stage {
            FrameStage::Idle => {
                if self.surface.is_valid() {
                    NextStep::Acquire
                } else {
                    NextStep::Recreate
                }
            },
            FrameStage::Acquired => NextStep::BeginPasses,
            FrameStage::Recording => NextStep::JoinPasses,
            FrameStage::Joined => NextStep::JoinSignals,
            FrameStage::Compositing => NextStep::FinishComposite,
            FrameStage::Composited => NextStep::Present,
            FrameStage::Halted => NextStep::Shutdown,
        }
    }

    /// True when a frame can be begun.
    pub fn has_headroom(&self) -> (b: bool)
        ensures
            b == self.spec_has_headroom(),
    {
        self.gate.spare_ids() >= 8 && self.surface.frame_counter() < u64::MAX
    }

    /// True when the chain has to be rebuilt before the next acquisition.
    pub fn needs_recreate(&self) -> (b: bool)
        ensures
            b == !self.spec_surface().spec_is_valid(),
    {
        self.surface.is_swapchain_invalid()
    }

    /// Takes in a new size of the window. The chain is marked out of date;
    /// the targets keep their size until the chain is rebuilt.
    pub fn resize(&mut self, width: u32, height: u32)
        requires
            old(self).wf(),
        ensures
            final(self).wf(),
            !final(self).spec_surface().spec_is_valid(),
            final(self).spec_surface().spec_width() == width,
            final(self).spec_surface().spec_height() == height,
            final(self).spec_surface().spec_image_count() == old(self).spec_surface().spec_image_count(),
            final(self).spec_surface().spec_generation() == old(self).spec_surface().spec_generation(),
            final(self).spec_surface().spec_frame_counter() == old(self).spec_surface().spec_frame_counter(),
            final(self).spec_surface().spec_active_image() == old(self).spec_surface().spec_active_image(),
            final(self).spec_surface().spec_frame_limit() == old(self).spec_surface().spec_frame_limit(),
            final(self).spec_pool() == old(self).spec_pool(),
            final(self).spec_gate() == old(self).spec_gate(),
            final(self).spec_stage() == old(self).spec_stage(),
    {
        self.surface.update_window_size(width, height);
    }

    /// Marks the chain as out of date, so that it is rebuilt before the next
    /// acquisition.
    pub fn invalidate(&mut self)
        requires
            old(self).wf(),
        ensures
            final(self).wf(),
            !final(self).spec_surface().spec_is_valid(),
            final(self).spec_surface().spec_width() == old(self).spec_surface().spec_width(),
            final(self).spec_surface().spec_height() == old(self).spec_surface().spec_height(),
            final(self).spec_surface().spec_image_count() == old(self).spec_surface().spec_image_count(),
            final(self).spec_surface().spec_generation() == old(self).spec_surface().spec_generation(),
            final(self).spec_surface().spec_frame_counter() == old(self).spec_surface().spec_frame_counter(),
            final(self).spec_surface().spec_active_image() == old(self).spec_surface().spec_active_image(),
            final(self).spec_surface().spec_frame_limit() == old(self).spec_surface().spec_frame_limit(),
            final(self).spec_pool() == old(self).spec_pool(),
            final(self).spec_gate() == old(self).spec_gate(),
            final(self).spec_stage() == old(self).spec_stage(),
    {
        self.surface.invalidate_swapchain();
    }

    /// Switches the frame limit and marks the chain as out of date.
    pub fn set_frame_limit(&mut self, limited: bool)
        requires
            old(self).wf(),
        ensures
            final(self).wf(),
            !final(self).spec_surface().spec_is_valid(),
            final(self).spec_surface().spec_frame_limit() == limited,
            final(self).spec_surface().spec_width() == old(self).spec_surface().spec_width(),
            final(self).spec_surface().spec_height() == old(self).spec_surface().spec_height(),
            final(self).spec_surface().spec_image_count() == old(self).spec_surface().spec_image_count(),
            final(self).spec_surface().spec_generation() == old(self).spec_surface().spec_generation(),
            final(self).spec_surface().spec_frame_counter() == old(self).spec_surface().spec_frame_counter(),
            final(self).spec_surface().spec_active_image() == old(self).spec_surface().spec_active_image(),
            final(self).spec_pool() == old(self).spec_pool(),
            final(self).spec_gate() == old(self).spec_gate(),
            final(self).spec_stage() == old(self).spec_stage(),
    {
        self.surface.set_frame_limit(limited);
    }

    /// True when the chain may be rebuilt now: between frames, and while the
    /// generation counter can still advance.
    pub fn can_recreate(&self) -> (b: bool)
        ensures
            b == (self.spec_stage() == FrameStage::Idle && self.spec_surface().spec_generation() < u64::MAX),
    {
        self.stage == FrameStage::Idle && self.surface.generation() < u64::MAX
    }

    /// Rebuilds everything that belongs to the chain, for a new chain of
    /// `image_count` images of the given size.
    ///
    /// Every target of the old generation is drained: the completion signals
    /// they held are returned, in the order scene row, picker row, shadow
    /// row, overlay, and the caller waits on each before it releases the old
    /// resources. The new pool holds unused targets of all four kinds at the
    /// new size; none of them holds a signal. The generation advances by one
    /// and the chain is valid again. Only possible between frames.
    pub fn recreate(&mut self, width: u32, height: u32, image_count: usize) -> (drained: Vec<CompletionSignal>)
        requires
            old(self).wf(),
            old(self).spec_stage() == FrameStage::Idle,
            old(self).spec_surface().spec_generation() < u64::MAX,
            image_count >= 1,
        ensures
            final(self).wf(),
            drained@ == old(self).spec_pool().outstanding(),
            final(self).spec_pool() == PoolView::fresh(
                image_count as nat,
                (old(self).spec_surface().spec_generation() + 1) as u64,
                width,
                height,
            ),
            final(self).spec_pool().is_drained(),
            final(self).spec_pool().outstanding() == Seq::<CompletionSignal>::empty(),
            final(self).spec_surface() == old(self).spec_surface().spec_recreated(width, height, image_count),
            final(self).spec_surface().spec_generation() == old(self).spec_surface().spec_generation() + 1,
            final(self).spec_surface().spec_is_valid(),
            final(self).spec_gate() == old(self).spec_gate(),
            final(self).spec_stage() == FrameStage::Idle,
    {
        broadcast use SurfacePresenter::lemma_recreated;

        let generation = self.surface.generation() + 1;
        let drained = self.pool.drain(&self.gate);
        self.pool = TargetPool::new(image_count, generation, width, height);
        self.surface.recreate(width, height, image_count);
        proof {
            PoolView::lemma_fresh(image_count as nat, generation, width, height);
        }
        drained
    }

    /// The stage after an acquisition with the given result.
    pub open spec fn spec_stage_after_acquire(r: Result<usize, RenderError>) -> FrameStage {
        match r {
            Ok(_) => FrameStage::Acquired,
            Err(RenderError::SurfaceLost) => FrameStage::Halted,
            Err(_) => FrameStage::Idle,
        }
    }

    /// Takes in the answer of the device to a request for the next image.
    ///
    /// Returns the index of the acquired image, which is then the active
    /// one. A timeout changes nothing: the frame is skipped and tried again
    /// on the next tick. An out-of-date chain marks the surface for a
    /// rebuild and skips the frame. A lost surface halts the run.
    pub fn acquire_next(&mut self, outcome: AcquireOutcome) -> (r: Result<usize, RenderError>)
        requires
            old(self).wf(),
            old(self).spec_stage() == FrameStage::Idle,
            old(self).spec_has_headroom(),
        ensures
            final(self).wf(),
            r == old(self).spec_surface().spec_acquire_result(outcome),
            final(self).spec_stage() == Self::spec_stage_after_acquire(r),
            final(self).spec_surface() == old(self).spec_surface().spec_acquired(
                outcome,
                OrderingSignal { id: old(self).spec_gate().spec_next_id() },
            ),
            r matches Ok(image) ==> final(self).spec_surface().spec_active_image() == Some(image)
                && final(self).spec_surface().spec_acquire_signal() == Some(
                OrderingSignal { id: old(self).spec_gate().spec_next_id() },
            ),
            r matches Ok(_) ==> final(self).spec_surface().spec_is_valid() == !outcome->suboptimal,
            r matches Err(e) ==> final(self).spec_surface().spec_active_image() is None && (e
                == RenderError::SurfaceOutOfDate ==> !final(self).spec_surface().spec_is_valid()),
            outcome is Timeout || outcome is Lost ==> final(self).spec_surface() == old(self).spec_surface(),
            final(self).spec_surface().spec_image_count() == old(self).spec_surface().spec_image_count(),
            final(self).spec_surface().spec_width() == old(self).spec_surface().spec_width(),
            final(self).spec_surface().spec_height() == old(self).spec_surface().spec_height(),
            final(self).spec_surface().spec_frame_limit() == old(self).spec_surface().spec_frame_limit(),
            final(self).spec_surface().spec_generation() == old(self).spec_surface().spec_generation(),
            final(self).spec_surface().spec_frame_counter() == old(self).spec_surface().spec_frame_counter(),
            final(self).spec_pool() == old(self).spec_pool(),
            final(self).spec_gate().spec_next_id() == old(self).spec_gate().spec_next_id() + if r is Ok {
                1nat
            } else {
                0nat
            },
            final(self).spec_gate().spec_issued() == old(self).spec_gate().spec_issued() + if r is Ok {
                1nat
            } else {
                0nat
            },
            final(self).spec_gate().spec_outstanding_count() == if r is Ok {
                1nat
            } else {
                0nat
            },
            final(self).spec_gate().spec_consumed() == old(self).spec_gate().spec_consumed(),
            final(self).spec_gate().spec_discarded() == old(self).spec_gate().spec_discarded(),
            final(self).spec_gate().deferred_uploads() == old(self).spec_gate().deferred_uploads(),
    {
        broadcast use SurfacePresenter::lemma_acquired;

        let r = self.surface.acquire_next(outcome, &mut self.gate);
        match r {
            Ok(_) => {
                self.stage = FrameStage::Acquired;
            },
            Err(RenderError::SurfaceLost) => {
                self.stage = FrameStage::Halted;
            },
            Err(_) => {},
        }
        r
    }

    /// Opens the passes of the frame on the targets of the acquired image.
    ///
    /// Every target that the frame writes to is reclaimed first, so that no
    /// target is started while it still holds a completion signal: the
    /// signals taken are returned in `waits`, and the caller waits on each,
    /// in order, before any pass records. With `drain_chain` the scene
    /// targets of all images are reclaimed. Picker, shadow and scene are
    /// then recording; the overlay only if it is rendered again, and is
    /// left untouched otherwise. An upload in flight is waited for if this
    /// frame reads uploaded resources, and put off otherwise.
    pub fn begin_passes(&mut self, ctx: &FrameContext, upload: Option<UploadSignal>) -> (plan: PassPlan)
        requires
            old(self).wf(),
            old(self).spec_stage() == FrameStage::Acquired,
        ensures
            final(self).wf(),
            final(self).spec_stage() == FrameStage::Recording,
            plan.image == old(self).spec_image(),
            plan.overlay == ctx.spec_rerender_overlay(),
            plan.clear_overlay == ctx.clear_overlay,
            plan.waits@ == frame_waits(
                old(self).spec_pool(),
                old(self).spec_image(),
                ctx.spec_drain_chain(),
                ctx.spec_rerender_overlay(),
            ),
            plan.upload_waits@ == spec_upload_waits(
                old(self).spec_gate().deferred_uploads(),
                upload,
                ctx.uses_uploads,
            ),
            final(self).spec_gate().deferred_uploads() == spec_upload_deferred(
                old(self).spec_gate().deferred_uploads(),
                upload,
                ctx.uses_uploads,
            ),
            final(self).spec_pool() == begun(
                old(self).spec_pool(),
                old(self).spec_image(),
                ctx.spec_drain_chain(),
                ctx.spec_rerender_overlay(),
            ),
            !ctx.spec_rerender_overlay() ==> final(self).spec_pool().overlay == old(self).spec_pool().overlay,
            final(self).spec_overlay_active() == ctx.spec_rerender_overlay(),
            final(self).spec_buffers_shown() == ctx.settings.spec_show_buffers(),
            final(self).spec_surface() == old(self).spec_surface(),
            final(self).spec_gate().spec_next_id() == old(self).spec_gate().spec_next_id(),
            final(self).spec_gate().spec_issued() == old(self).spec_gate().spec_issued(),
            final(self).spec_gate().spec_consumed() == old(self).spec_gate().spec_consumed(),
            final(self).spec_gate().spec_discarded() == old(self).spec_gate().spec_discarded(),
            final(self).spec_gate().spec_outstanding_count() == 1,
    {
        let image = self.surface.get_image_number().unwrap();
        let overlay = ctx.rerender_overlay();
        let drain_chain = ctx.drain_chain();
        let ghost before = self.pool@;
        let ghost i = image as int;
        let upload_waits = self.gate.admit_upload(upload, ctx.uses_uploads);

        let mut waits: Vec<CompletionSignal> = Vec::new();
        let first = self.pool.reclaim(PassKind::Scene, image, &self.gate);
        push_slot(&mut waits, first);
        if drain_chain {
            let mut chain = self.pool.reclaim_scene_chain(&self.gate);
            waits.append(&mut chain);
        }
        let ghost scene_row = self.pool@.scene;
        assert(scene_row =~= (if drain_chain {
            reclaimed(before.scene)
        } else {
            before.scene
        }).update(i, before.scene[i].spec_reclaimed()));
        let picker = self.pool.reclaim(PassKind::Picker, image, &self.gate);
        push_slot(&mut waits, picker);
        let shadow = self.pool.reclaim(PassKind::Shadow, image, &self.gate);
        push_slot(&mut waits, shadow);
        if overlay {
            let last = self.pool.reclaim(PassKind::Overlay, image, &self.gate);
            push_slot(&mut waits, last);
        }
        assert(waits@ =~= frame_waits(before, i, drain_chain, overlay));

        self.pool.start(PassKind::Scene, image);
        self.pool.start(PassKind::Picker, image);
        self.pool.start(PassKind::Shadow, image);
        if overlay {
            self.pool.start(PassKind::Overlay, image);
        }
        assert(self.pool@.scene =~= begun(before, i, drain_chain, overlay).scene);
        assert(self.pool@.picker =~= begun(before, i, drain_chain, overlay).picker);
        assert(self.pool@.shadow =~= begun(before, i, drain_chain, overlay).shadow);

        self.overlay_active = overlay;
        self.buffers_shown = ctx.settings.show_buffers();
        self.stage = FrameStage::Recording;
        PassPlan { image, waits, upload_waits, overlay, clear_overlay: ctx.clear_overlay }
    }

    /// The fan-out succeeded: every pass that was opened, other than the
    /// scene, was submitted.
    pub open spec fn spec_fan_out_ok(
        overlay_active: bool,
        picker: SubmitOutcome,
        shadow: SubmitOutcome,
        overlay: SubmitOutcome,
    ) -> bool {
        picker is Submitted && shadow is Submitted && (overlay_active ==> overlay is Submitted)
    }

    /// Takes in how the submissions of picker, shadow and overlay went, once
    /// all of them have returned. The answer for the overlay is ignored when
    /// the overlay was not opened in this frame.
    ///
    /// Each submitted pass leaves its target submitted, holding a fresh
    /// completion signal and the output of this frame. If all were submitted,
    /// the shadow and overlay submissions have an ordering signal each, which
    /// the composite will wait on, and the result lists what the CPU has to
    /// wait on before the composite: the picker's completion signal while
    /// buffers are displayed, nothing otherwise. If any pass was not
    /// submitted, its recording and that of the scene are dropped, every
    /// ordering signal of the frame is discarded, the run is halted and the
    /// result is `DeviceLost`; the targets that were submitted keep their
    /// completion signals for `shutdown` to hand out.
    pub fn join_passes(&mut self, picker: SubmitOutcome, shadow: SubmitOutcome, overlay: SubmitOutcome) -> (r: Result<
        Vec<CompletionSignal>,
        RenderError,
    >)
        requires
            old(self).wf(),
            old(self).spec_stage() == FrameStage::Recording,
        ensures
            final(self).wf(),
            r is Ok <==> Self::spec_fan_out_ok(old(self).spec_overlay_active(), picker, shadow, overlay),
            r is Err ==> r->Err_0 == RenderError::DeviceLost,
            final(self).spec_stage() == if r is Ok {
                FrameStage::Joined
            } else {
                FrameStage::Halted
            },
            ({
                let before = old(self).spec_pool();
                let image = old(self).spec_image();
                let first_id = old(self).spec_gate().spec_next_id() as int;
                let active = old(self).spec_overlay_active();
                let after = settled(
                    before,
                    image,
                    active,
                    picker is Submitted,
                    shadow is Submitted,
                    overlay is Submitted,
                    first_id,
                    old(self).spec_frame(),
                );
                &&& r matches Ok(waits) ==> {
                    &&& waits@ == if old(self).spec_buffers_shown() {
                        seq![CompletionSignal { id: first_id as u64 }]
                    } else {
                        Seq::<CompletionSignal>::empty()
                    }
                    &&& final(self).spec_pool() == if old(self).spec_buffers_shown() {
                        after.with_target(PassKind::Picker, image, after.picker[image].spec_reclaimed())
                    } else {
                        after
                    }
                    &&& final(self).spec_shadow_signal() == Some(OrderingSignal { id: (first_id + 2) as u64 })
                    &&& final(self).spec_overlay_signal() == if active {
                        Some(OrderingSignal { id: (first_id + 4) as u64 })
                    } else {
                        None
                    }
                    &&& final(self).spec_surface() == old(self).spec_surface()
                    &&& final(self).spec_gate().spec_next_id() == first_id + if active {
                        5int
                    } else {
                        3int
                    }
                    &&& final(self).spec_gate().spec_issued() == old(self).spec_gate().spec_issued() + if active {
                        2nat
                    } else {
                        1nat
                    }
                    &&& final(self).spec_gate().spec_discarded() == old(self).spec_gate().spec_discarded()
                }
                &&& r is Err ==> {
                    let orderings = (if shadow is Submitted {
                        1nat
                    } else {
                        0nat
                    }) + (if active && overlay is Submitted {
                        1nat
                    } else {
                        0nat
                    });
                    &&& final(self).spec_pool() == after.with_target(
                        PassKind::Scene,
                        image,
                        before.scene[image].spec_reclaimed(),
                    )
                    &&& final(self).spec_shadow_signal() is None
                    &&& final(self).spec_overlay_signal() is None
                    &&& final(self).spec_surface().spec_acquire_signal() is None
                    &&& final(self).spec_surface().spec_active_image() == old(self).spec_surface().spec_active_image()
                    &&& final(self).spec_surface().spec_is_valid() == old(self).spec_surface().spec_is_valid()
                    &&& final(self).spec_surface().spec_frame_counter() == old(
                        self,
                    ).spec_surface().spec_frame_counter()
                    &&& final(self).spec_surface().spec_generation() == old(self).spec_surface().spec_generation()
                    &&& final(self).spec_surface().spec_image_count() == old(self).spec_surface().spec_image_count()
                    &&& final(self).spec_gate().spec_outstanding_count() == 0
                    &&& final(self).spec_gate().spec_issued() == old(self).spec_gate().spec_issued() + orderings
                    &&& final(self).spec_gate().spec_discarded() == old(self).spec_gate().spec_discarded() + 1
                        + orderings
                }
                &&& final(self).spec_gate().spec_next_id() == first_id + ids_used(PassKind::Picker, picker is Submitted)
                    + ids_used(PassKind::Shadow, shadow is Submitted) + if active {
                    ids_used(PassKind::Overlay, overlay is Submitted)
                } else {
                    0int
                }
            }),
            final(self).spec_buffers_shown() == old(self).spec_buffers_shown(),
            !old(self).spec_overlay_active() ==> final(self).spec_pool().overlay == old(self).spec_pool().overlay,
            final(self).spec_overlay_active() == old(self).spec_overlay_active(),
            final(self).spec_gate().spec_consumed() == old(self).spec_gate().spec_consumed(),
            final(self).spec_gate().deferred_uploads() == old(self).spec_gate().deferred_uploads(),
    {
        let image = self.surface.get_image_number().unwrap();
        let frame = self.surface.frame_counter();
        let ghost before = self.pool@;
        let ghost i = image as int;
        let ghost first_id = self.gate.spec_next_id() as int;
        let picker_ok = picker == SubmitOutcome::Submitted;
        let shadow_ok = shadow == SubmitOutcome::Submitted;
        let overlay_ok = overlay == SubmitOutcome::Submitted;

        if picker_ok {
            self.pool.finish(PassKind::Picker, image, &mut self.gate, frame);
        } else {
            self.pool.abort(PassKind::Picker, image);
        }
        if shadow_ok {
            self.shadow_signal = self.pool.finish(PassKind::Shadow, image, &mut self.gate, frame);
        } else {
            self.pool.abort(PassKind::Shadow, image);
        }
        if self.overlay_active {
            if overlay_ok {
                self.overlay_signal = self.pool.finish(PassKind::Overlay, image, &mut self.gate, frame);
            } else {
                self.pool.abort(PassKind::Overlay, image);
            }
        }
        let ghost after = settled(before, i, self.overlay_active, picker_ok, shadow_ok, overlay_ok, first_id, frame);
        assert(self.pool@.picker =~= after.picker);
        assert(self.pool@.shadow =~= after.shadow);
        assert(self.pool@.scene =~= after.scene);
        assert(self.pool@ == after);

        if picker_ok && shadow_ok && (!self.overlay_active || overlay_ok) {
            let mut waits: Vec<CompletionSignal> = Vec::new();
            if self.buffers_shown {
                let shown = self.pool.reclaim(PassKind::Picker, image, &self.gate);
                push_slot(&mut waits, shown);
            }
            assert(waits@ =~= if self.buffers_shown {
                seq![CompletionSignal { id: first_id as u64 }]
            } else {
                Seq::<CompletionSignal>::empty()
            });
            self.stage = FrameStage::Joined;
            assert(self.gate.outstanding_ids() =~= if self.overlay_signal is Some {
                Set::<u64>::empty().insert(self.surface.spec_acquire_signal()->0.id).insert(
                    self.shadow_signal->0.id,
                ).insert(self.overlay_signal->0.id)
            } else {
                Set::<u64>::empty().insert(self.surface.spec_acquire_signal()->0.id).insert(self.shadow_signal->0.id)
            });
            Ok(waits)
        } else {
            self.pool.abort(PassKind::Scene, image);
            self.gate.discard_all();
            self.shadow_signal = None;
            self.overlay_signal = None;
            self.surface.take_acquire_signal();
            self.stage = FrameStage::Halted;
            proof {
                self.gate.lemma_conservation();
            }
            Err(RenderError::DeviceLost)
        }
    }

    /// Joins the ordering signals that the composite submission has to wait
    /// on: the overlay's if the overlay was rendered in this frame, the
    /// shadow map's, and the acquisition's. Each is consumed here, once. The
    /// scene's lighting samples the shadow map, and the scene is submitted
    /// with this plan only: it cannot begin on the device before the shadow
    /// pass of this frame has been submitted and has reached its signal.
    pub fn join_signals(&mut self) -> (plan: CompositePlan)
        requires
            old(self).wf(),
            old(self).spec_stage() == FrameStage::Joined,
        ensures
            final(self).wf(),
            final(self).spec_stage() == FrameStage::Compositing,
            plan.image == old(self).spec_image(),
            plan.wait_on@ == spec_joined(
                old(self).spec_overlay_signal(),
                old(self).spec_shadow_signal()->0,
                old(self).spec_surface().spec_acquire_signal()->0,
            ),
            plan.wait_on@.contains(old(self).spec_shadow_signal()->0),
            plan.overlay_frame == old(self).spec_pool().overlay.spec_rendered_frame(),
            final(self).spec_pool() == old(self).spec_pool(),
            final(self).spec_pool().shadow[plan.image as int].spec_rendered_frame() == Some(old(self).spec_frame()),
            final(self).spec_shadow_signal() is None,
            final(self).spec_overlay_signal() is None,
            final(self).spec_surface().spec_acquire_signal() is None,
            final(self).spec_surface().spec_active_image() == old(self).spec_surface().spec_active_image(),
            final(self).spec_surface().spec_frame_counter() == old(self).spec_surface().spec_frame_counter(),
            final(self).spec_surface().spec_is_valid() == old(self).spec_surface().spec_is_valid(),
            final(self).spec_gate().spec_outstanding_count() == 0,
            final(self).spec_gate().spec_consumed() == old(self).spec_gate().spec_consumed() + plan.wait_on@.len(),
            final(self).spec_gate().spec_issued() == old(self).spec_gate().spec_issued(),
            final(self).spec_gate().spec_discarded() == old(self).spec_gate().spec_discarded(),
            final(self).spec_gate().spec_next_id() == old(self).spec_gate().spec_next_id(),
            final(self).spec_overlay_active() == old(self).spec_overlay_active(),
    {
        let image = self.surface.get_image_number().unwrap();
        let acquire = self.surface.take_acquire_signal().unwrap();
        let shadow = self.shadow_signal.unwrap();
        let overlay = self.overlay_signal;
        let wait_on = self.gate.join(overlay, shadow, acquire);
        self.shadow_signal = None;
        self.overlay_signal = None;
        self.stage = FrameStage::Compositing;
        proof {
            let n = wait_on@.len() as int;
            assert(wait_on@[n - 2] == shadow);
            let ids = wait_on@.map_values(|s: OrderingSignal| s.id);
            assert(ids[n - 1] == acquire.id);
            assert(ids[n - 2] == shadow.id);
            if overlay is Some {
                assert(ids[0] == overlay->0.id);
            }
            assert(self.gate.outstanding_ids() =~= Set::<u64>::empty());
        }
        let overlay_frame = self.pool.get(PassKind::Overlay, 0).rendered_frame();
        CompositePlan { image, wait_on, overlay_frame }
    }

    /// Takes in how the submission of the scene, which is the composite,
    /// went. When it was submitted, the scene target holds a fresh completion
    /// signal and the output of this frame, and the result names the
    /// ordering signal that the present has to wait on. Otherwise the
    /// recording is dropped, the run is halted and the result is `DeviceLost`.
    pub fn finish_composite(&mut self, outcome: SubmitOutcome) -> (r: Result<PresentPlan, RenderError>)
        requires
            old(self).wf(),
            old(self).spec_stage() == FrameStage::Compositing,
        ensures
            final(self).wf(),
            r is Ok <==> outcome is Submitted,
            r is Err ==> r->Err_0 == RenderError::DeviceLost,
            final(self).spec_stage() == if r is Ok {
                FrameStage::Composited
            } else {
                FrameStage::Halted
            },
            ({
                let image = old(self).spec_image();
                let first_id = old(self).spec_gate().spec_next_id();
                let scene = old(self).spec_pool().scene[image];
                &&& r matches Ok(plan) ==> {
                    &&& plan.image == image
                    &&& plan.wait_on == OrderingSignal { id: (first_id + 1) as u64 }
                    &&& final(self).spec_composite_signal() == Some(plan.wait_on)
                    &&& final(self).spec_pool() == old(self).spec_pool().with_target(
                        PassKind::Scene,
                        image,
                        scene.spec_finished(CompletionSignal { id: first_id }, old(self).spec_frame()),
                    )
                    &&& final(self).spec_pool().shadow[image].spec_rendered_frame() == Some(old(self).spec_frame())
                    &&& final(self).spec_gate().spec_next_id() == first_id + 2
                    &&& final(self).spec_gate().spec_issued() == old(self).spec_gate().spec_issued() + 1
                    &&& final(self).spec_gate().spec_outstanding_count() == 1
                }
                &&& r is Err ==> {
                    &&& final(self).spec_pool() == old(self).spec_pool().with_target(
                        PassKind::Scene,
                        image,
                        scene.spec_reclaimed(),
                    )
                    &&& final(self).spec_gate().spec_next_id() == first_id
                    &&& final(self).spec_gate().spec_issued() == old(self).spec_gate().spec_issued()
                    &&& final(self).spec_gate().spec_outstanding_count() == 0
                }
            }),
            final(self).spec_surface() == old(self).spec_surface(),
            final(self).spec_gate().spec_consumed() == old(self).spec_gate().spec_consumed(),
            final(self).spec_gate().spec_discarded() == old(self).spec_gate().spec_discarded(),
            final(self).spec_gate().deferred_uploads() == old(self).spec_gate().deferred_uploads(),
    {
        let image = self.surface.get_image_number().unwrap();
        let frame = self.surface.frame_counter();
        match outcome {
            SubmitOutcome::Submitted => {
                let ordering = self.pool.finish(PassKind::Scene, image, &mut self.gate, frame);
                self.composite_signal = ordering;
                self.stage = FrameStage::Composited;
                assert(self.gate.outstanding_ids() =~= Set::<u64>::empty().insert(ordering->0.id));
                Ok(PresentPlan { image, wait_on: ordering.unwrap() })
            },
            _ => {
                self.pool.abort(PassKind::Scene, image);
                self.stage = FrameStage::Halted;
                Err(RenderError::DeviceLost)
            },
        }
    }

    /// Takes in the answer of the device to the present of the active image.
    ///
    /// The ordering signal of the composite is consumed, the frame counter
    /// advances and the frame is over: no ordering signal of it is left
    /// outstanding. An out-of-date answer is no failure of this frame; it
    /// marks the chain for a rebuild before the next one. A lost surface
    /// halts the run.
    pub fn present(&mut self, outcome: PresentOutcome) -> (r: Result<(), RenderError>)
        requires
            old(self).wf(),
            old(self).spec_stage() == FrameStage::Composited,
        ensures
            final(self).wf(),
            r == SurfacePresenter::spec_present_result(outcome),
            final(self).spec_stage() == if r is Ok {
                FrameStage::Idle
            } else {
                FrameStage::Halted
            },
            final(self).spec_surface() == old(self).spec_surface().spec_presented(outcome),
            final(self).spec_surface().spec_frame_counter() == old(self).spec_surface().spec_frame_counter() + 1,
            final(self).spec_surface().spec_is_valid() == (old(self).spec_surface().spec_is_valid() && outcome
                is Presented),
            final(self).spec_surface().spec_active_image() is None,
            final(self).spec_pool() == old(self).spec_pool(),
            final(self).spec_composite_signal() is None,
            final(self).spec_gate().outstanding_ids() == Set::<u64>::empty(),
            final(self).spec_gate().spec_outstanding_count() == 0,
            final(self).spec_gate().spec_consumed() == old(self).spec_gate().spec_consumed() + 1,
            final(self).spec_gate().spec_issued() == old(self).spec_gate().spec_issued(),
            final(self).spec_gate().spec_discarded() == old(self).spec_gate().spec_discarded(),
            final(self).spec_gate().spec_next_id() == old(self).spec_gate().spec_next_id(),
            final(self).spec_gate().deferred_uploads() == old(self).spec_gate().deferred_uploads(),
    {
        broadcast use SurfacePresenter::lemma_presented;

        let image = self.surface.get_image_number().unwrap();
        let wait_on = self.composite_signal.unwrap();
        let r = self.surface.present(image, wait_on, outcome, &mut self.gate);
        self.composite_signal = None;
        assert(self.gate.outstanding_ids() =~= Set::<u64>::empty());
        match r {
            Ok(_) => {
                self.stage = FrameStage::Idle;
            },
            Err(_) => {
                self.stage = FrameStage::Halted;
            },
        }
        r
    }

    /// Ends the run, from any stage. Every target is drained: the completion
    /// signals they held are returned, in the order scene row, picker row,
    /// shadow row, overlay, and the caller waits on each before it releases
    /// any resource. Open recordings are dropped and ordering signals that
    /// no submission waited on are discarded.
    pub fn shutdown(&mut self) -> (drained: Vec<CompletionSignal>)
        requires
            old(self).wf(),
        ensures
            final(self).wf(),
            final(self).spec_stage() == FrameStage::Halted,
            drained@ == old(self).spec_pool().outstanding(),
            final(self).spec_pool() == old(self).spec_pool().drained(),
            final(self).spec_pool().is_drained(),
            final(self).spec_pool().outstanding() == Seq::<CompletionSignal>::empty(),
            final(self).spec_gate().spec_outstanding_count() == 0,
            final(self).spec_gate().spec_discarded() == old(self).spec_gate().spec_discarded() + old(
                self,
            ).spec_gate().spec_outstanding_count(),
            final(self).spec_gate().spec_consumed() == old(self).spec_gate().spec_consumed(),
            final(self).spec_gate().spec_issued() == old(self).spec_gate().spec_issued(),
            final(self).spec_gate().spec_next_id() == old(self).spec_gate().spec_next_id(),
            final(self).spec_surface().spec_acquire_signal() is None,
            final(self).spec_surface().spec_active_image() == old(self).spec_surface().spec_active_image(),
            final(self).spec_surface().spec_is_valid() == old(self).spec_surface().spec_is_valid(),
            final(self).spec_surface().spec_width() == old(self).spec_surface().spec_width(),
            final(self).spec_surface().spec_height() == old(self).spec_surface().spec_height(),
            final(self).spec_surface().spec_frame_counter() == old(self).spec_surface().spec_frame_counter(),
            final(self).spec_surface().spec_generation() == old(self).spec_surface().spec_generation(),
            final(self).spec_surface().spec_image_count() == old(self).spec_surface().spec_image_count(),
            final(self).spec_shadow_signal() is None,
            final(self).spec_overlay_signal() is None,
            final(self).spec_composite_signal() is None,
    {
        let ghost before = self.pool@;
        let drained = self.pool.drain(&self.gate);
        self.gate.discard_all();
        self.surface.take_acquire_signal();
        self.shadow_signal = None;
        self.overlay_signal = None;
        self.composite_signal = None;
        self.stage = FrameStage::Halted;
        proof {
            before.lemma_drained(
                self.surface.spec_image_count() as nat,
                self.surface.spec_generation(),
                before.overlay.spec_width(),
                before.overlay.spec_height(),
            );
        }
        drained
    }

    /// True when the overlay target holds no output yet, as it does at the
    /// start of a run and after every rebuild. The composite has nothing to
    /// read from it until a frame renders the overlay, so the caller forces
    /// the overlay in the next frame.
    pub fn overlay_is_stale(&self) -> (stale: bool)
        requires
            self.wf(),
        ensures
            stale == self.spec_pool().overlay.spec_rendered_frame() is None,
    {
        self.pool.get(PassKind::Overlay, 0).rendered_frame().is_none()
    }

    /// How many frames are submitted and not yet waited for.
    pub fn frames_in_flight(&self) -> (count: usize)
        requires
            self.wf(),
        ensures
            count == crate::pool::submitted_count(self.spec_pool().scene),
            count <= self.spec_surface().spec_image_count(),
    {
        self.pool.frames_in_flight()
    }
}

} // verus!
