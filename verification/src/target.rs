//! Render targets and the pool that holds one per pass kind and image.

use vstd::prelude::*;
use crate::gate::SynchronizationGate;
use crate::pass::PassKind;
use crate::signal::{slot_seq, CompletionSignal, OrderingSignal};

verus! {

/// Where a render target stands in its cycle.
#[derive(Clone, Copy, Debug, PartialEq, Eq, Structural)]
pub enum TargetPhase {
    /// Free to be started.
    Idle,
    /// Between `start` and `finish`: pass commands are being recorded.
    Recording,
    /// Submitted; the completion signal has not been taken yet.
    Submitted,
}

/// One render destination: the output of one pass kind for one image of the
/// chain, valid for one generation of the surface.
#[derive(Clone, Copy, Debug, PartialEq, Eq, Structural)]
pub struct RenderTarget {
    kind: PassKind,
    image: usize,
    generation: u64,
    width: u32,
    height: u32,
    phase: TargetPhase,
    completion: Option<CompletionSignal>,
    rendered_frame: Option<u64>,
}

impl RenderTarget {
    /// A target holds a completion signal exactly while it is submitted.
    pub open spec fn wf(&self) -> bool {
        self.spec_is_submitted() <==> self.spec_completion() is Some
    }

    /// The pass that writes to the target.
    pub closed spec fn spec_kind(&self) -> PassKind {
        self.kind
    }

    /// The image of the chain that the target belongs to.
    pub closed spec fn spec_image(&self) -> usize {
        self.image
    }

    /// The generation of the surface that the target was built for.
    pub closed spec fn spec_generation(&self) -> u64 {
        self.generation
    }

    /// Width of the target in pixels.
    pub closed spec fn spec_width(&self) -> u32 {
        self.width
    }

    /// Height of the target in pixels.
    pub closed spec fn spec_height(&self) -> u32 {
        self.height
    }

    /// Where the target stands in its cycle.
    pub closed spec fn spec_phase(&self) -> TargetPhase {
        self.phase
    }

    /// The completion signal of the last submission, until it is taken.
    pub closed spec fn spec_completion(&self) -> Option<CompletionSignal> {
        self.completion
    }

    /// The frame whose output the target holds, if it was ever submitted.
    pub closed spec fn spec_rendered_frame(&self) -> Option<u64> {
        self.rendered_frame
    }

    /// The target is free to be started.
    pub open spec fn spec_is_idle(&self) -> bool {
        self.spec_phase() == TargetPhase::Idle
    }

    /// The target is between `start` and `finish`.
    pub open spec fn spec_is_recording(&self) -> bool {
        self.spec_phase() == TargetPhase::Recording
    }

    /// The target is submitted and its signal not yet taken.
    pub open spec fn spec_is_submitted(&self) -> bool {
        self.spec_phase() == TargetPhase::Submitted
    }

    /// A target that was never used.
    pub closed spec fn spec_new(kind: PassKind, image: usize, generation: u64, width: u32, height: u32) -> RenderTarget {
        RenderTarget {
            kind,
            image,
            generation,
            width,
            height,
            phase: TargetPhase::Idle,
            completion: None,
            rendered_frame: None,
        }
    }

    /// The target with recording begun.
    pub closed spec fn spec_started(&self) -> RenderTarget {
        RenderTarget { phase: TargetPhase::Recording, ..*self }
    }

    /// The target after a submission in `frame` that signals `signal`.
    pub closed spec fn spec_finished(&self, signal: CompletionSignal, frame: u64) -> RenderTarget {
        RenderTarget {
            phase: TargetPhase::Submitted,
            completion: Some(signal),
            rendered_frame: Some(frame),
            ..*self
        }
    }

    /// The target with its completion signal taken, or with its recording
    /// dropped: idle, and holding the output it held before.
    pub closed spec fn spec_reclaimed(&self) -> RenderTarget {
        RenderTarget { phase: TargetPhase::Idle, completion: None, ..*self }
    }

    /// What a fresh target holds.
    pub broadcast proof fn lemma_new(kind: PassKind, image: usize, generation: u64, width: u32, height: u32)
        ensures
            #![trigger RenderTarget::spec_new(kind, image, generation, width, height)]
            ({
                let t = RenderTarget::spec_new(kind, image, generation, width, height);
                &&& t.wf()
                &&& t.spec_phase() == TargetPhase::Idle
                &&& t.spec_completion() is None
                &&& t.spec_rendered_frame() is None
                &&& t.spec_kind() == kind
                &&& t.spec_image() == image
                &&& t.spec_generation() == generation
                &&& t.spec_width() == width
                &&& t.spec_height() == height
            }),
    {
    }

    /// What starting changes: the phase, and nothing else.
    pub broadcast proof fn lemma_started(&self)
        ensures
            #![trigger self.spec_started()]
            self.spec_started().spec_phase() == TargetPhase::Recording,
            self.spec_started().spec_completion() == self.spec_completion(),
            self.spec_started().spec_rendered_frame() == self.spec_rendered_frame(),
            self.spec_started().spec_kind() == self.spec_kind(),
            self.spec_started().spec_image() == self.spec_image(),
            self.spec_started().spec_generation() == self.spec_generation(),
            self.spec_started().spec_width() == self.spec_width(),
            self.spec_started().spec_height() == self.spec_height(),
            self.spec_started().spec_reclaimed() == self.spec_reclaimed(),
    {
    }

    /// What a submission changes: the phase, the signal and the frame held.
    pub broadcast proof fn lemma_finished(&self, signal: CompletionSignal, frame: u64)
        ensures
            #![trigger self.spec_finished(signal, frame)]
            self.spec_finished(signal, frame).spec_phase() == TargetPhase::Submitted,
            self.spec_finished(signal, frame).spec_completion() == Some(signal),
            self.spec_finished(signal, frame).spec_rendered_frame() == Some(frame),
            self.spec_finished(signal, frame).spec_kind() == self.spec_kind(),
            self.spec_finished(signal, frame).spec_image() == self.spec_image(),
            self.spec_finished(signal, frame).spec_generation() == self.spec_generation(),
            self.spec_finished(signal, frame).spec_width() == self.spec_width(),
            self.spec_finished(signal, frame).spec_height() == self.spec_height(),
    {
    }

    /// What reclaiming changes: the target is idle and holds no signal; an
    /// idle target is left as it is.
    pub broadcast proof fn lemma_reclaimed(&self)
        ensures
            #![trigger self.spec_reclaimed()]
            self.spec_reclaimed().spec_phase() == TargetPhase::Idle,
            self.spec_reclaimed().spec_completion() is None,
            self.spec_reclaimed().spec_rendered_frame() == self.spec_rendered_frame(),
            self.spec_reclaimed().spec_kind() == self.spec_kind(),
            self.spec_reclaimed().spec_image() == self.spec_image(),
            self.spec_reclaimed().spec_generation() == self.spec_generation(),
            self.spec_reclaimed().spec_width() == self.spec_width(),
            self.spec_reclaimed().spec_height() == self.spec_height(),
            self.wf() && self.spec_is_idle() ==> self.spec_reclaimed() == *self,
    {
    }

    /// A target that was never used: idle, without a signal and without output.
    pub fn new(kind: PassKind, image: usize, generation: u64, width: u32, height: u32) -> (target: RenderTarget)
        ensures
            target == RenderTarget::spec_new(kind, image, generation, width, height),
            target.wf(),
            target.spec_is_idle(),
            target.spec_completion() is None,
            target.spec_rendered_frame() is None,
            target.spec_kind() == kind,
            target.spec_image() == image,
            target.spec_generation() == generation,
            target.spec_width() == width,
            target.spec_height() == height,
    {
        RenderTarget {
            kind,
            image,
            generation,
            width,
            height,
            phase: TargetPhase::Idle,
            completion: None,
            rendered_frame: None,
        }
    }

    /// The pass that writes to the target.
    pub fn kind(&self) -> (kind: PassKind)
        ensures
            kind == self.spec_kind(),
    {
        self.kind
    }

    /// The image of the chain that the target belongs to.
    pub fn image(&self) -> (image: usize)
        ensures
            image == self.spec_image(),
    {
        self.image
    }

    /// The generation of the surface that the target was built for.
    pub fn generation(&self) -> (generation: u64)
        ensures
            generation == self.spec_generation(),
    {
        self.generation
    }

    /// Width of the target in pixels.
    pub fn width(&self) -> (width: u32)
        ensures
            width == self.spec_width(),
    {
        self.width
    }

    /// Height of the target in pixels.
    pub fn height(&self) -> (height: u32)
        ensures
            height == self.spec_height(),
    {
        self.height
    }

    /// Where the target stands in its cycle.
    pub fn phase(&self) -> (phase: TargetPhase)
        ensures
            phase == self.spec_phase(),
    {
        self.phase
    }

    /// True when the target is free to be started.
    pub fn is_idle(&self) -> (b: bool)
        ensures
            b == self.spec_is_idle(),
    {
        self.phase == TargetPhase::Idle
    }

    /// True between `start` and `finish`.
    pub fn is_recording(&self) -> (b: bool)
        ensures
            b == self.spec_is_recording(),
    {
        self.phase == TargetPhase::Recording
    }

    /// True while the target holds the completion signal of a submission.
    pub fn is_submitted(&self) -> (b: bool)
        ensures
            b == self.spec_is_submitted(),
    {
        self.phase == TargetPhase::Submitted
    }

    /// The completion signal of the last submission, until it is taken.
    pub fn completion(&self) -> (signal: Option<CompletionSignal>)
        ensures
            signal == self.spec_completion(),
    {
        self.completion
    }

    /// The frame whose output the target holds.
    pub fn rendered_frame(&self) -> (frame: Option<u64>)
        ensures
            frame == self.spec_rendered_frame(),
    {
        self.rendered_frame
    }

    /// Begins recording pass commands. Only an idle target can be started:
    /// the completion signal of an earlier submission has been taken, and
    /// waited on, before.
    pub fn start(&mut self)
        requires
            old(self).wf(),
            old(self).spec_is_idle(),
        ensures
            final(self).wf(),
            *final(self) == old(self).spec_started(),
            final(self).spec_is_recording(),
            final(self).spec_completion() is None,
    {
        self.phase = TargetPhase::Recording;
    }

    /// Ends recording with the pass submitted in `frame`. The target keeps
    /// the completion signal of the submission. Where the output feeds
    /// another submission or the presentation, an ordering signal is issued
    /// too and returned.
    pub fn finish(&mut self, gate: &mut SynchronizationGate, frame: u64) -> (ordering: Option<OrderingSignal>)
        requires
            old(self).wf(),
            old(self).spec_is_recording(),
            old(gate).wf(),
            old(gate).spec_next_id() + 2 <= u64::MAX,
        ensures
            final(self).wf(),
            final(gate).wf(),
            *final(self) == old(self).spec_finished(
                CompletionSignal { id: old(gate).spec_next_id() },
                frame,
            ),
            final(self).spec_is_submitted(),
            final(self).spec_completion() == Some(CompletionSignal { id: old(gate).spec_next_id() }),
            final(self).spec_rendered_frame() == Some(frame),
            old(self).spec_kind().spec_emits_ordering() ==> {
                &&& ordering == Some(OrderingSignal { id: (old(gate).spec_next_id() + 1) as u64 })
                &&& final(gate).spec_next_id() == old(gate).spec_next_id() + 2
                &&& !old(gate).outstanding_ids().contains(ordering->0.id)
                &&& final(gate).outstanding_ids() == old(gate).outstanding_ids().insert(ordering->0.id)
                &&& final(gate).spec_outstanding_count() == old(gate).spec_outstanding_count() + 1
                &&& final(gate).spec_issued() == old(gate).spec_issued() + 1
            },
            !old(self).spec_kind().spec_emits_ordering() ==> {
                &&& ordering is None
                &&& final(gate).spec_next_id() == old(gate).spec_next_id() + 1
                &&& final(gate).outstanding_ids() == old(gate).outstanding_ids()
                &&& final(gate).spec_outstanding_count() == old(gate).spec_outstanding_count()
                &&& final(gate).spec_issued() == old(gate).spec_issued()
            },
            final(gate).spec_consumed() == old(gate).spec_consumed(),
            final(gate).spec_discarded() == old(gate).spec_discarded(),
            final(gate).deferred_uploads() == old(gate).deferred_uploads(),
    {
        let signal = gate.issue_completion();
        self.phase = TargetPhase::Submitted;
        self.completion = Some(signal);
        self.rendered_frame = Some(frame);
        if self.kind.emits_ordering() {
            Some(gate.issue_ordering())
        } else {
            None
        }
    }

    /// Drops a recording whose pass was not submitted. The target is idle
    /// again and holds the output it held before.
    pub fn abort(&mut self)
        requires
            old(self).wf(),
            old(self).spec_is_recording(),
        ensures
            final(self).wf(),
            *final(self) == old(self).spec_reclaimed(),
            final(self).spec_is_idle(),
    {
        self.phase = TargetPhase::Idle;
    }

    /// Takes the completion signal out of the target, if it holds one, and
    /// leaves the target idle. Taking and clearing are one step: a signal is
    /// handed out once.
    pub fn try_take_fence(&mut self) -> (signal: Option<CompletionSignal>)
        requires
            old(self).wf(),
            !old(self).spec_is_recording(),
        ensures
            final(self).wf(),
            signal == old(self).spec_completion(),
            *final(self) == old(self).spec_reclaimed(),
            final(self).spec_is_idle(),
            final(self).spec_completion() is None,
    {
        let signal = self.completion;
        self.completion = None;
        self.phase = TargetPhase::Idle;
        signal
    }
}

pub broadcast group group_target_transitions {
    RenderTarget::lemma_new,
    RenderTarget::lemma_started,
    RenderTarget::lemma_finished,
    RenderTarget::lemma_reclaimed,
}

} // verus!
