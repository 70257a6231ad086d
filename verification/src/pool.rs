//! The pool of render targets: one scene, picker and shadow target for each
//! image of the chain, and one overlay target whose output is kept from
//! frame to frame.

use vstd::prelude::*;
use crate::gate::SynchronizationGate;
use crate::pass::PassKind;
use crate::signal::{slot_seq, CompletionSignal, OrderingSignal};
use crate::target::{group_target_transitions, RenderTarget};

verus! {

broadcast use group_target_transitions;

/// The completion signals that a row of targets holds, in the order of the row.
pub open spec fn signals_of(targets: Seq<RenderTarget>) -> Seq<CompletionSignal>
    decreases targets.len(),
{
    if targets.len() == 0 {
        Seq::empty()
    } else {
        signals_of(targets.drop_last()) + slot_seq(targets.last().spec_completion())
    }
}

/// The row with every target reclaimed.
pub open spec fn reclaimed(targets: Seq<RenderTarget>) -> Seq<RenderTarget> {
    Seq::new(targets.len(), |i: int| targets[i].spec_reclaimed())
}

/// A row of `n` targets of one kind that were never used.
pub open spec fn fresh_row(kind: PassKind, n: nat, generation: u64, width: u32, height: u32) -> Seq<RenderTarget> {
    Seq::new(n, |i: int| RenderTarget::spec_new(kind, i as usize, generation, width, height))
}

/// How many targets of the row are submitted and not yet reclaimed.
pub open spec fn submitted_count(targets: Seq<RenderTarget>) -> nat
    decreases targets.len(),
{
    if targets.len() == 0 {
        0
    } else {
        submitted_count(targets.drop_last()) + if targets.last().spec_is_submitted() {
            1nat
        } else {
            0nat
        }
    }
}

/// A row holds exactly the signals of its targets: a signal is in
/// `signals_of` if and only if some target of the row holds it.
pub proof fn lemma_signals_of_contains(targets: Seq<RenderTarget>, signal: CompletionSignal)
    ensures
        signals_of(targets).contains(signal) <==> exists|i: int|
            0 <= i < targets.len() && (#[trigger] targets[i]).spec_completion() == Some(signal),
    decreases targets.len(),
{
    if targets.len() == 0 {
    } else {
        let front = targets.drop_last();
        let last = slot_seq(targets.last().spec_completion());
        lemma_signals_of_contains(front, signal);
        let all = signals_of(front) + last;
        if all.contains(signal) {
            let k = choose|k: int| 0 <= k < all.len() && all[k] == signal;
            if k < signals_of(front).len() {
                assert(signals_of(front)[k] == signal);
                assert(signals_of(front).contains(signal));
                let i = choose|i: int| 0 <= i < front.len() && (#[trigger] front[i]).spec_completion() == Some(signal);
                assert(targets[i] == front[i]);
            } else {
                assert(last[k - signals_of(front).len()] == signal);
                assert(targets[targets.len() - 1].spec_completion() == Some(signal));
            }
        }
        if exists|i: int| 0 <= i < targets.len() && (#[trigger] targets[i]).spec_completion() == Some(signal) {
            let i = choose|i: int| 0 <= i < targets.len() && (#[trigger] targets[i]).spec_completion() == Some(signal);
            if i < front.len() {
                assert(front[i] == targets[i]);
                assert(signals_of(front).contains(signal));
                let k = choose|k: int| 0 <= k < signals_of(front).len() && signals_of(front)[k] == signal;
                assert(all[k] == signal);
            } else {
                assert(last[0] == signal);
                assert(all[signals_of(front).len() as int] == signal);
            }
        }
    }
}

/// A row in which no target holds a signal has no signal to wait on.
pub proof fn lemma_signals_of_idle(targets: Seq<RenderTarget>)
    requires
        forall|i: int| 0 <= i < targets.len() ==> (#[trigger] targets[i]).spec_completion() is None,
    ensures
        signals_of(targets) == Seq::<CompletionSignal>::empty(),
        signals_of(targets).len() == 0,
    decreases targets.len(),
{
    if targets.len() > 0 {
        let front = targets.drop_last();
        assert forall|i: int| 0 <= i < front.len() implies (#[trigger] front[i]).spec_completion() is None by {
            assert(front[i] == targets[i]);
        }
        lemma_signals_of_idle(front);
        assert(targets.last() == targets[targets.len() - 1]);
        assert(signals_of(targets) =~= Seq::<CompletionSignal>::empty());
    }
}

/// Each target holds at most one signal, and a well-formed target holds one
/// exactly while it is submitted: the signals of a row are as many as its
/// submitted targets, which are at most as many as the row is long.
pub proof fn lemma_signals_of_len(targets: Seq<RenderTarget>)
    requires
        forall|i: int| 0 <= i < targets.len() ==> (#[trigger] targets[i]).wf(),
    ensures
        signals_of(targets).len() == submitted_count(targets),
        submitted_count(targets) <= targets.len(),
    decreases targets.len(),
{
    if targets.len() > 0 {
        let front = targets.drop_last();
        assert forall|i: int| 0 <= i < front.len() implies (#[trigger] front[i]).wf() by {
            assert(front[i] == targets[i]);
        }
        lemma_signals_of_len(front);
        assert(targets.last() == targets[targets.len() - 1]);
        assert(targets.last().wf());
    }
}

proof fn lemma_signals_of_step(targets: Seq<RenderTarget>, i: int)
    requires
        0 <= i < targets.len(),
    ensures
        signals_of(targets.take(i + 1)) == signals_of(targets.take(i)) + slot_seq(targets[i].spec_completion()),
        submitted_count(targets.take(i + 1)) == submitted_count(targets.take(i)) + if targets[i].spec_is_submitted() {
            1nat
        } else {
            0nat
        },
{
    assert(targets.take(i + 1).drop_last() =~= targets.take(i));
    assert(targets.take(i + 1).last() == targets[i]);
}

/// What the pool holds, as sequences.
pub struct PoolView {
    pub scene: Seq<RenderTarget>,
    pub picker: Seq<RenderTarget>,
    pub shadow: Seq<RenderTarget>,
    pub overlay: RenderTarget,
}

impl PoolView {
    /// A target of a row belongs to the row's kind, to its own image and to
    /// the given generation, and has the given size.
    pub open spec fn row_wf(
        row: Seq<RenderTarget>,
        kind: PassKind,
        n: nat,
        generation: u64,
        width: u32,
        height: u32,
    ) -> bool {
        &&& row.len() == n
        &&& forall|i: int|
            0 <= i < n ==> {
                &&& (#[trigger] row[i]).wf()
                &&& row[i].spec_kind() == kind
                &&& row[i].spec_image() == i
                &&& row[i].spec_generation() == generation
                &&& row[i].spec_width() == width
                &&& row[i].spec_height() == height
            }
    }

    /// One target per kind and image, all of one generation and size.
    pub open spec fn wf(self, n: nat, generation: u64, width: u32, height: u32) -> bool {
        &&& Self::row_wf(self.scene, PassKind::Scene, n, generation, width, height)
        &&& Self::row_wf(self.picker, PassKind::Picker, n, generation, width, height)
        &&& Self::row_wf(self.shadow, PassKind::Shadow, n, generation, width, height)
        &&& self.overlay.wf()
        &&& self.overlay.spec_kind() == PassKind::Overlay
        &&& self.overlay.spec_image() == 0
        &&& self.overlay.spec_generation() == generation
        &&& self.overlay.spec_width() == width
        &&& self.overlay.spec_height() == height
    }

    /// Every target is well formed.
    pub open spec fn targets_wf(self) -> bool {
        &&& forall|i: int| 0 <= i < self.scene.len() ==> (#[trigger] self.scene[i]).wf()
        &&& forall|i: int| 0 <= i < self.picker.len() ==> (#[trigger] self.picker[i]).wf()
        &&& forall|i: int| 0 <= i < self.shadow.len() ==> (#[trigger] self.shadow[i]).wf()
        &&& self.overlay.wf()
    }

    /// The target of a kind for an image. There is one overlay for all images.
    pub open spec fn target(self, kind: PassKind, image: int) -> RenderTarget {
        match kind {
            PassKind::Scene => self.scene[image],
            PassKind::Picker => self.picker[image],
            PassKind::Shadow => self.shadow[image],
            PassKind::Overlay => self.overlay,
        }
    }

    /// The pool with one target replaced.
    pub open spec fn with_target(self, kind: PassKind, image: int, target: RenderTarget) -> PoolView {
        match kind {
            PassKind::Scene => PoolView { scene: self.scene.update(image, target), ..self },
            PassKind::Picker => PoolView { picker: self.picker.update(image, target), ..self },
            PassKind::Shadow => PoolView { shadow: self.shadow.update(image, target), ..self },
            PassKind::Overlay => PoolView { overlay: target, ..self },
        }
    }

    /// A pool of targets that were never used.
    pub open spec fn fresh(n: nat, generation: u64, width: u32, height: u32) -> PoolView {
        PoolView {
            scene: fresh_row(PassKind::Scene, n, generation, width, height),
            picker: fresh_row(PassKind::Picker, n, generation, width, height),
            shadow: fresh_row(PassKind::Shadow, n, generation, width, height),
            overlay: RenderTarget::spec_new(PassKind::Overlay, 0, generation, width, height),
        }
    }

    /// Every completion signal that some target holds: scene row, picker
    /// row, shadow row, overlay.
    pub open spec fn outstanding(self) -> Seq<CompletionSignal> {
        signals_of(self.scene) + signals_of(self.picker) + signals_of(self.shadow) + slot_seq(
            self.overlay.spec_completion(),
        )
    }

    /// The pool with every target reclaimed.
    pub open spec fn drained(self) -> PoolView {
        PoolView {
            scene: reclaimed(self.scene),
            picker: reclaimed(self.picker),
            shadow: reclaimed(self.shadow),
            overlay: self.overlay.spec_reclaimed(),
        }
    }

    /// No target holds a completion signal.
    pub open spec fn is_drained(self) -> bool {
        &&& forall|i: int| 0 <= i < self.scene.len() ==> (#[trigger] self.scene[i]).spec_completion() is None
        &&& forall|i: int| 0 <= i < self.picker.len() ==> (#[trigger] self.picker[i]).spec_completion() is None
        &&& forall|i: int| 0 <= i < self.shadow.len() ==> (#[trigger] self.shadow[i]).spec_completion() is None
        &&& self.overlay.spec_completion() is None
    }

    /// No target is between `start` and `finish`.
    pub open spec fn is_quiescent(self) -> bool {
        &&& forall|i: int| 0 <= i < self.scene.len() ==> !(#[trigger] self.scene[i]).spec_is_recording()
        &&& forall|i: int| 0 <= i < self.picker.len() ==> !(#[trigger] self.picker[i]).spec_is_recording()
        &&& forall|i: int| 0 <= i < self.shadow.len() ==> !(#[trigger] self.shadow[i]).spec_is_recording()
        &&& !self.overlay.spec_is_recording()
    }

    /// A drained pool has nothing to wait on.
    pub proof fn lemma_drained_is_empty(self)
        requires
            self.is_drained(),
        ensures
            self.outstanding() == Seq::<CompletionSignal>::empty(),
    {
        lemma_signals_of_idle(self.scene);
        lemma_signals_of_idle(self.picker);
        lemma_signals_of_idle(self.shadow);
        assert(self.outstanding() =~= Seq::<CompletionSignal>::empty());
    }

    /// Draining leaves a pool that is drained and quiescent, with every
    /// target where and what it was.
    pub proof fn lemma_drained(self, n: nat, generation: u64, width: u32, height: u32)
        requires
            self.wf(n, generation, width, height),
        ensures
            self.drained().wf(n, generation, width, height),
            self.drained().is_drained(),
            self.drained().is_quiescent(),
            self.drained().outstanding() == Seq::<CompletionSignal>::empty(),
    {
        self.drained().lemma_drained_is_empty();
    }

    /// A fresh pool is well formed, drained and quiescent.
    pub proof fn lemma_fresh(n: nat, generation: u64, width: u32, height: u32)
        requires
            n <= usize::MAX,
        ensures
            Self::fresh(n, generation, width, height).wf(n, generation, width, height),
            Self::fresh(n, generation, width, height).is_drained(),
            Self::fresh(n, generation, width, height).is_quiescent(),
            Self::fresh(n, generation, width, height).outstanding() == Seq::<CompletionSignal>::empty(),
    {
        Self::fresh(n, generation, width, height).lemma_drained_is_empty();
    }
}

/// The render targets of one generation of the surface.
pub struct TargetPool {
    scene: Vec<RenderTarget>,
    picker: Vec<RenderTarget>,
    shadow: Vec<RenderTarget>,
    overlay: RenderTarget,
}

impl View for TargetPool {
    type V = PoolView;

    closed spec fn view(&self) -> PoolView {
        PoolView { scene: self.scene@, picker: self.picker@, shadow: self.shadow@, overlay: self.overlay }
    }
}

fn build_row(kind: PassKind, n: usize, generation: u64, width: u32, height: u32) -> (row: Vec<RenderTarget>)
    ensures
        row@ == fresh_row(kind, n as nat, generation, width, height),
{
    let mut row: Vec<RenderTarget> = Vec::new();
    let mut i: usize = 0;
    while i < n
        invariant
            i <= n,
            row@.len() == i,
            forall|k: int| 0 <= k < i ==> row@[k] == RenderTarget::spec_new(kind, k as usize, generation, width, height),
        decreases n - i,
    {
        row.push(RenderTarget::new(kind, i, generation, width, height));
        i = i + 1;
    }
    assert(row@ =~= fresh_row(kind, n as nat, generation, width, height));
    row
}

fn drain_row(row: &mut Vec<RenderTarget>, waits: &mut Vec<CompletionSignal>, gate: &SynchronizationGate)
    requires
        forall|i: int| 0 <= i < old(row)@.len() ==> (#[trigger] old(row)@[i]).wf(),
    ensures
        final(row)@ == reclaimed(old(row)@),
        final(waits)@ == old(waits)@ + signals_of(old(row)@),
{
    let n = row.len();
    let mut i: usize = 0;
    while i < n
        invariant
            i <= n,
            n == row@.len(),
            n == old(row)@.len(),
            forall|k: int| 0 <= k < old(row)@.len() ==> (#[trigger] old(row)@[k]).wf(),
            forall|k: int| 0 <= k < i ==> row@[k] == old(row)@[k].spec_reclaimed(),
            forall|k: int| i <= k < n ==> row@[k] == old(row)@[k],
            waits@ == old(waits)@ + signals_of(old(row)@.take(i as int)),
        decreases n - i,
    {
        let mut target = row[i];
        assert(target == old(row)@[i as int]);
        assert(target.wf());
        let wait = if target.is_recording() {
            target.abort();
            None
        } else {
            gate.reclaim(&mut target)
        };
        row.set(i, target);
        match wait {
            Some(signal) => {
                waits.push(signal);
            },
            None => {},
        }
        proof {
            lemma_signals_of_step(old(row)@, i as int);
            assert(waits@ =~= old(waits)@ + signals_of(old(row)@.take(i + 1)));
        }
        i = i + 1;
    }
    assert(old(row)@.take(n as int) =~= old(row)@);
    assert(row@ =~= reclaimed(old(row)@));
}

impl TargetPool {
    /// A pool of targets that were never used, for a chain of `image_count`
    /// images.
    pub fn new(image_count: usize, generation: u64, width: u32, height: u32) -> (pool: TargetPool)
        ensures
            pool@ == PoolView::fresh(image_count as nat, generation, width, height),
            pool@.wf(image_count as nat, generation, width, height),
            pool@.is_drained(),
            pool@.is_quiescent(),
    {
        proof {
            PoolView::lemma_fresh(image_count as nat, generation, width, height);
        }
        TargetPool {
            scene: build_row(PassKind::Scene, image_count, generation, width, height),
            picker: build_row(PassKind::Picker, image_count, generation, width, height),
            shadow: build_row(PassKind::Shadow, image_count, generation, width, height),
            overlay: RenderTarget::new(PassKind::Overlay, 0, generation, width, height),
        }
    }

    /// How many images the pool was built for.
    pub fn image_count(&self) -> (n: usize)
        ensures
            n == self@.scene.len(),
    {
        self.scene.len()
    }

    /// The target of a kind for an image.
    pub fn get(&self, kind: PassKind, image: usize) -> (target: RenderTarget)
        requires
            kind != PassKind::Overlay ==> image < self@.scene.len(),
            self@.picker.len() == self@.scene.len(),
            self@.shadow.len() == self@.scene.len(),
        ensures
            target == self@.target(kind, image as int),
    {
        match kind {
            PassKind::Scene => self.scene[image],
            PassKind::Picker => self.picker[image],
            PassKind::Shadow => self.shadow[image],
            PassKind::Overlay => self.overlay,
        }
    }

    fn put(&mut self, kind: PassKind, image: usize, target: RenderTarget)
        requires
            kind != PassKind::Overlay ==> image < old(self)@.scene.len(),
            old(self)@.picker.len() == old(self)@.scene.len(),
            old(self)@.shadow.len() == old(self)@.scene.len(),
        ensures
            final(self)@ == old(self)@.with_target(kind, image as int, target),
    {
        match kind {
            PassKind::Scene => {
                self.scene.set(image, target);
            },
            PassKind::Picker => {
                self.picker.set(image, target);
            },
            PassKind::Shadow => {
                self.shadow.set(image, target);
            },
            PassKind::Overlay => {
                self.overlay = target;
            },
        }
    }

    /// Begins recording on one target, which has to be idle.
    pub fn start(&mut self, kind: PassKind, image: usize)
        requires
            kind != PassKind::Overlay ==> image < old(self)@.scene.len(),
            old(self)@.picker.len() == old(self)@.scene.len(),
            old(self)@.shadow.len() == old(self)@.scene.len(),
            old(self)@.target(kind, image as int).wf(),
            old(self)@.target(kind, image as int).spec_is_idle(),
        ensures
            final(self)@ == old(self)@.with_target(
                kind,
                image as int,
                old(self)@.target(kind, image as int).spec_started(),
            ),
    {
        let mut target = self.get(kind, image);
        target.start();
        self.put(kind, image, target);
    }

    /// Ends recording on one target with its pass submitted in `frame`.
    pub fn finish(&mut self, kind: PassKind, image: usize, gate: &mut SynchronizationGate, frame: u64) -> (ordering:
        Option<OrderingSignal>)
        requires
            kind != PassKind::Overlay ==> image < old(self)@.scene.len(),
            old(self)@.picker.len() == old(self)@.scene.len(),
            old(self)@.shadow.len() == old(self)@.scene.len(),
            old(self)@.target(kind, image as int).wf(),
            old(self)@.target(kind, image as int).spec_is_recording(),
            old(gate).wf(),
            old(gate).spec_next_id() + 2 <= u64::MAX,
        ensures
            final(gate).wf(),
            final(self)@ == old(self)@.with_target(
                kind,
                image as int,
                old(self)@.target(kind, image as int).spec_finished(
                    CompletionSignal { id: old(gate).spec_next_id() },
                    frame,
                ),
            ),
            old(self)@.target(kind, image as int).spec_kind().spec_emits_ordering() ==> {
                &&& ordering == Some(OrderingSignal { id: (old(gate).spec_next_id() + 1) as u64 })
                &&& final(gate).spec_next_id() == old(gate).spec_next_id() + 2
                &&& !old(gate).outstanding_ids().contains(ordering->0.id)
                &&& final(gate).outstanding_ids() == old(gate).outstanding_ids().insert(ordering->0.id)
                &&& final(gate).spec_outstanding_count() == old(gate).spec_outstanding_count() + 1
                &&& final(gate).spec_issued() == old(gate).spec_issued() + 1
            },
            !old(self)@.target(kind, image as int).spec_kind().spec_emits_ordering() ==> {
                &&& ordering is None
                &&& final(gate).spec_next_id() == old(gate).spec_next_id() + 1
                &&& final(gate).outstanding_ids() == old(gate).outstanding_ids()
                &&& final(gate).spec_outstanding_count() == old(gate).spec_outstanding_count()
                &&& final(gate).spec_issued() == old(gate).spec_issued()
            },
            final(gate).spec_consumed() == old(gate).spec_consumed(),
            final(gate).spec_discarded() == old(gate).spec_discarded(),
            final(gate).deferred_uploads() == old(gate).deferred_uploads(),
    {
        let mut target = self.get(kind, image);
        let ordering = target.finish(gate, frame);
        self.put(kind, image, target);
        ordering
    }

    /// Drops the recording on one target whose pass was not submitted.
    pub fn abort(&mut self, kind: PassKind, image: usize)
        requires
            kind != PassKind::Overlay ==> image < old(self)@.scene.len(),
            old(self)@.picker.len() == old(self)@.scene.len(),
            old(self)@.shadow.len() == old(self)@.scene.len(),
            old(self)@.target(kind, image as int).wf(),
            old(self)@.target(kind, image as int).spec_is_recording(),
        ensures
            final(self)@ == old(self)@.with_target(
                kind,
                image as int,
                old(self)@.target(kind, image as int).spec_reclaimed(),
            ),
    {
        let mut target = self.get(kind, image);
        target.abort();
        self.put(kind, image, target);
    }

    /// Takes the completion signal of one target, if it holds one, and
    /// leaves the target idle, by way of the synchronization gate.
    pub fn reclaim(&mut self, kind: PassKind, image: usize, gate: &SynchronizationGate) -> (wait: Option<
        CompletionSignal,
    >)
        requires
            kind != PassKind::Overlay ==> image < old(self)@.scene.len(),
            old(self)@.picker.len() == old(self)@.scene.len(),
            old(self)@.shadow.len() == old(self)@.scene.len(),
            old(self)@.target(kind, image as int).wf(),
            !old(self)@.target(kind, image as int).spec_is_recording(),
        ensures
            wait == old(self)@.target(kind, image as int).spec_completion(),
            final(self)@ == old(self)@.with_target(
                kind,
                image as int,
                old(self)@.target(kind, image as int).spec_reclaimed(),
            ),
    {
        let mut target = self.get(kind, image);
        let wait = gate.reclaim(&mut target);
        self.put(kind, image, target);
        wait
    }

    /// Takes the completion signal of every scene target, in the order of
    /// the chain, and leaves them idle.
    pub fn reclaim_scene_chain(&mut self, gate: &SynchronizationGate) -> (waits: Vec<CompletionSignal>)
        requires
            forall|i: int| 0 <= i < old(self)@.scene.len() ==> (#[trigger] old(self)@.scene[i]).wf(),
        ensures
            waits@ == signals_of(old(self)@.scene),
            final(self)@ == (PoolView { scene: reclaimed(old(self)@.scene), ..old(self)@ }),
    {
        let mut waits: Vec<CompletionSignal> = Vec::new();
        assert(self@.scene == self.scene@);
        assert(forall|i: int| 0 <= i < self.scene@.len() ==> (#[trigger] self.scene@[i]).wf());
        drain_row(&mut self.scene, &mut waits, gate);
        assert(waits@ =~= signals_of(old(self)@.scene));
        waits
    }

    /// Takes every completion signal out of the pool and leaves every target
    /// idle, whatever it was doing. The signals come in the order scene row,
    /// picker row, shadow row, overlay.
    pub fn drain(&mut self, gate: &SynchronizationGate) -> (waits: Vec<CompletionSignal>)
        requires
            old(self)@.targets_wf(),
        ensures
            waits@ == old(self)@.outstanding(),
            final(self)@ == old(self)@.drained(),
            final(self)@.targets_wf(),
            final(self)@.is_drained(),
            final(self)@.is_quiescent(),
    {
        let mut waits: Vec<CompletionSignal> = Vec::new();
        assert(self@.scene == self.scene@ && self@.picker == self.picker@ && self@.shadow == self.shadow@);
        assert(forall|i: int| 0 <= i < self.scene@.len() ==> (#[trigger] self.scene@[i]).wf());
        assert(forall|i: int| 0 <= i < self.picker@.len() ==> (#[trigger] self.picker@[i]).wf());
        assert(forall|i: int| 0 <= i < self.shadow@.len() ==> (#[trigger] self.shadow@[i]).wf());
        drain_row(&mut self.scene, &mut waits, gate);
        drain_row(&mut self.picker, &mut waits, gate);
        drain_row(&mut self.shadow, &mut waits, gate);
        let last = if self.overlay.is_recording() {
            self.overlay.abort();
            None
        } else {
            gate.reclaim(&mut self.overlay)
        };
        match last {
            Some(signal) => {
                waits.push(signal);
            },
            None => {},
        }
        assert(waits@ =~= old(self)@.outstanding());
        waits
    }

    /// How many scene targets are submitted and not yet reclaimed: the
    /// frames that are in flight. There are never more than the chain is deep.
    pub fn frames_in_flight(&self) -> (count: usize)
        requires
            forall|i: int| 0 <= i < self@.scene.len() ==> (#[trigger] self@.scene[i]).wf(),
        ensures
            count == submitted_count(self@.scene),
            count <= self@.scene.len(),
    {
        let n = self.scene.len();
        let mut count: usize = 0;
        let mut i: usize = 0;
        while i < n
            invariant
                i <= n,
                n == self.scene@.len(),
                count == submitted_count(self.scene@.take(i as int)),
                count <= i,
            decreases n - i,
        {
            proof {
                lemma_signals_of_step(self.scene@, i as int);
            }
            if self.scene[i].is_submitted() {
                count = count + 1;
            }
            i = i + 1;
        }
        assert(self.scene@.take(n as int) =~= self.scene@);
        count
    }
}

} // verus!
