//! What holds of every frame, whatever the device answers.

use vstd::prelude::*;
use crate::pass::PassKind;
use crate::pool::{lemma_signals_of_contains, PoolView};
use crate::scheduler::{begun, frame_waits, settled, FrameScheduler, FrameStage};
use crate::signal::CompletionSignal;
use crate::target::{group_target_transitions, RenderTarget};

verus! {

broadcast use group_target_transitions;

/// No premature reuse: a target that holds a completion signal cannot be
/// started, because it is not idle.
pub proof fn lemma_submitted_target_cannot_start(target: RenderTarget)
    requires
        target.wf(),
        target.spec_completion() is Some,
    ensures
        !target.spec_is_idle(),
        target.spec_is_submitted(),
{
}

/// No premature reuse: every target that a frame starts was reclaimed
/// before. The completion signal that it held is among the signals that the
/// frame waits on before any pass records, and once the passes are begun the
/// target is recording and holds no signal. `kind` is any pass that the
/// frame runs: the overlay only if it is rendered again.
pub proof fn lemma_no_premature_reuse(pool: PoolView, image: int, drain_chain: bool, overlay: bool, kind: PassKind)
    requires
        0 <= image < pool.scene.len(),
        pool.picker.len() == pool.scene.len(),
        pool.shadow.len() == pool.scene.len(),
        kind == PassKind::Overlay ==> overlay,
    ensures
        pool.target(kind, image).spec_completion() matches Some(signal) ==> frame_waits(
            pool,
            image,
            drain_chain,
            overlay,
        ).contains(signal),
        begun(pool, image, drain_chain, overlay).target(kind, image).spec_is_recording(),
        begun(pool, image, drain_chain, overlay).target(kind, image).spec_completion() is None,
{
    let waits = frame_waits(pool, image, drain_chain, overlay);
    match pool.target(kind, image).spec_completion() {
        Some(signal) => {
            lemma_member_of_waits(pool, image, drain_chain, overlay, kind, signal);
        },
        None => {},
    }
}

proof fn lemma_member_of_waits(
    pool: PoolView,
    image: int,
    drain_chain: bool,
    overlay: bool,
    kind: PassKind,
    signal: CompletionSignal,
)
    requires
        0 <= image < pool.scene.len(),
        pool.picker.len() == pool.scene.len(),
        pool.shadow.len() == pool.scene.len(),
        kind == PassKind::Overlay ==> overlay,
        pool.target(kind, image).spec_completion() == Some(signal),
    ensures
        frame_waits(pool, image, drain_chain, overlay).contains(signal),
{
    let a = crate::signal::slot_seq(pool.scene[image].spec_completion());
    let b = if drain_chain {
        crate::pool::signals_of(pool.scene.update(image, pool.scene[image].spec_reclaimed()))
    } else {
        Seq::empty()
    };
    let c = crate::signal::slot_seq(pool.picker[image].spec_completion());
    let d = crate::signal::slot_seq(pool.shadow[image].spec_completion());
    let e = if overlay {
        crate::signal::slot_seq(pool.overlay.spec_completion())
    } else {
        Seq::empty()
    };
    let waits = a + b + c + d + e;
    assert(waits == frame_waits(pool, image, drain_chain, overlay));
    match kind {
        PassKind::Scene => {
            assert(waits[0] == signal);
        },
        PassKind::Picker => {
            assert(waits[(a.len() + b.len()) as int] == signal);
        },
        PassKind::Shadow => {
            assert(waits[(a.len() + b.len() + c.len()) as int] == signal);
        },
        PassKind::Overlay => {
            assert(waits[(a.len() + b.len() + c.len() + d.len()) as int] == signal);
        },
    }
}

/// No premature reuse, for a drained chain: the frame waits on the signal
/// of every scene target, and leaves every scene target but its own idle.
pub proof fn lemma_drained_chain_is_waited_for(pool: PoolView, image: int, overlay: bool, other: int)
    requires
        0 <= image < pool.scene.len(),
        0 <= other < pool.scene.len(),
        pool.picker.len() == pool.scene.len(),
        pool.shadow.len() == pool.scene.len(),
    ensures
        pool.scene[other].spec_completion() matches Some(signal) ==> frame_waits(pool, image, true, overlay).contains(
            signal,
        ),
        begun(pool, image, true, overlay).scene[other].spec_completion() is None,
        other != image ==> begun(pool, image, true, overlay).scene[other].spec_is_idle(),
{
    match pool.scene[other].spec_completion() {
        Some(signal) => {
            if other == image {
                lemma_member_of_waits(pool, image, true, overlay, PassKind::Scene, signal);
            } else {
                let a = crate::signal::slot_seq(pool.scene[image].spec_completion());
                let row = pool.scene.update(image, pool.scene[image].spec_reclaimed());
                let b = crate::pool::signals_of(row);
                let c = crate::signal::slot_seq(pool.picker[image].spec_completion());
                let d = crate::signal::slot_seq(pool.shadow[image].spec_completion());
                let e = if overlay {
                    crate::signal::slot_seq(pool.overlay.spec_completion())
                } else {
                    Seq::empty()
                };
                let waits = a + b + c + d + e;
                assert(waits == frame_waits(pool, image, true, overlay));
                lemma_signals_of_contains(row, signal);
                assert(row[other].spec_completion() == Some(signal));
                assert(b.contains(signal));
                let k = choose|k: int| 0 <= k < b.len() && b[k] == signal;
                assert(waits[a.len() + k] == signal);
            }
        },
        None => {},
    }
}

/// A frame waits on nothing that no target held: each signal in its list
/// of waits was the completion signal of a target that the frame reclaims.
pub proof fn lemma_waits_are_held(pool: PoolView, image: int, drain_chain: bool, overlay: bool, signal: CompletionSignal)
    requires
        0 <= image < pool.scene.len(),
        pool.picker.len() == pool.scene.len(),
        pool.shadow.len() == pool.scene.len(),
        frame_waits(pool, image, drain_chain, overlay).contains(signal),
    ensures
        ({
            ||| pool.picker[image].spec_completion() == Some(signal)
            ||| pool.shadow[image].spec_completion() == Some(signal)
            ||| overlay && pool.overlay.spec_completion() == Some(signal)
            ||| exists|j: int|
                0 <= j < pool.scene.len() && (j == image || drain_chain) && (#[trigger] pool.scene[j]).spec_completion()
                    == Some(signal)
        }),
{
    let a = crate::signal::slot_seq(pool.scene[image].spec_completion());
    let row = pool.scene.update(image, pool.scene[image].spec_reclaimed());
    let b = if drain_chain {
        crate::pool::signals_of(row)
    } else {
        Seq::empty()
    };
    let c = crate::signal::slot_seq(pool.picker[image].spec_completion());
    let d = crate::signal::slot_seq(pool.shadow[image].spec_completion());
    let e = if overlay {
        crate::signal::slot_seq(pool.overlay.spec_completion())
    } else {
        Seq::empty()
    };
    let waits = a + b + c + d + e;
    assert(waits == frame_waits(pool, image, drain_chain, overlay));
    let k = choose|k: int| 0 <= k < waits.len() && waits[k] == signal;
    if k < a.len() {
        assert(a[k] == signal);
        assert(pool.scene[image].spec_completion() == Some(signal));
    } else if k < a.len() + b.len() {
        assert(b[k - a.len()] == signal);
        assert(b.contains(signal));
        lemma_signals_of_contains(row, signal);
        let j = choose|j: int| 0 <= j < row.len() && (#[trigger] row[j]).spec_completion() == Some(signal);
        assert(j != image);
        assert(pool.scene[j] == row[j]);
    } else if k < a.len() + b.len() + c.len() {
        assert(c[k - a.len() - b.len()] == signal);
    } else if k < a.len() + b.len() + c.len() + d.len() {
        assert(d[k - a.len() - b.len() - c.len()] == signal);
    } else {
        assert(e[k - a.len() - b.len() - c.len() - d.len()] == signal);
    }
}

/// Graph ordering: from the moment the fan-out is joined until the frame is
/// presented, the shadow target of the acquired image holds the output of
/// this very frame. The scene is open until the composite is submitted and
/// holds the output of this frame only after that: the scene of a frame is
/// never on the device before the shadow pass of that frame was submitted.
pub proof fn lemma_shadow_precedes_scene(scheduler: &FrameScheduler)
    requires
        scheduler.wf(),
        scheduler.spec_stage() == FrameStage::Joined || scheduler.spec_stage() == FrameStage::Compositing
            || scheduler.spec_stage() == FrameStage::Composited,
    ensures
        scheduler.spec_pool().shadow[scheduler.spec_image()].spec_rendered_frame() == Some(scheduler.spec_frame()),
        scheduler.spec_stage() != FrameStage::Composited ==> scheduler.spec_pool().scene[scheduler.spec_image()].spec_is_recording(),
        scheduler.spec_stage() == FrameStage::Composited ==> scheduler.spec_pool().scene[scheduler.spec_image()].spec_is_submitted()
            && scheduler.spec_pool().scene[scheduler.spec_image()].spec_rendered_frame() == Some(
            scheduler.spec_frame(),
        ),
{
}

/// Graph ordering, over all frames and images: a scene target never holds
/// the output of a frame whose shadow pass was not submitted. Beside a scene
/// target with the output of some frame stands a shadow target with the
/// output of that frame or, once the image has been acquired again, of a
/// later one.
pub proof fn lemma_scene_never_ahead_of_shadow(scheduler: &FrameScheduler, image: int)
    requires
        scheduler.wf(),
        0 <= image < scheduler.spec_pool().scene.len(),
    ensures
        scheduler.spec_pool().scene[image].spec_rendered_frame() matches Some(rendered) ==> {
            &&& rendered <= scheduler.spec_frame()
            &&& scheduler.spec_pool().shadow[image].spec_rendered_frame() matches Some(lit)
            &&& rendered <= lit
        },
{
}

/// Graph ordering: while the passes are recorded, the scene of the frame is
/// open, and so not submitted, whatever the other passes do.
pub proof fn lemma_scene_waits_for_join(scheduler: &FrameScheduler)
    requires
        scheduler.wf(),
        scheduler.spec_stage() == FrameStage::Recording,
    ensures
        scheduler.spec_pool().scene[scheduler.spec_image()].spec_is_recording(),
        !scheduler.spec_pool().scene[scheduler.spec_image()].spec_is_submitted(),
{
}

/// Signal conservation: every ordering signal that was issued went to one
/// waiter, was discarded, or is outstanding, and no signal is counted twice.
/// The outstanding ones are exactly those that the stage accounts for:
/// between frames, and once the composite has taken its signals, there is
/// none.
pub proof fn lemma_signal_conservation(scheduler: &FrameScheduler)
    requires
        scheduler.wf(),
    ensures
        scheduler.spec_gate().spec_issued() == scheduler.spec_gate().spec_consumed()
            + scheduler.spec_gate().spec_discarded() + scheduler.spec_gate().spec_outstanding_count(),
        scheduler.spec_gate().outstanding_ids().len() == scheduler.spec_gate().spec_outstanding_count(),
        scheduler.spec_gate().spec_outstanding_count() == match scheduler.spec_stage() {
            FrameStage::Idle => 0nat,
            FrameStage::Acquired => 1nat,
            FrameStage::Recording => 1nat,
            FrameStage::Joined => if scheduler.spec_overlay_active() {
                3nat
            } else {
                2nat
            },
            FrameStage::Compositing => 0nat,
            FrameStage::Composited => 1nat,
            FrameStage::Halted => 0nat,
        },
{
    scheduler.spec_gate().lemma_conservation();
}

/// Signal conservation over whole frames: from one point between frames to
/// a later one, as many ordering signals were consumed as were issued,
/// unless some were discarded in between, which happens only where a run is
/// halted or shut down.
pub proof fn lemma_frames_consume_what_they_issue(before: &FrameScheduler, after: &FrameScheduler)
    requires
        before.wf(),
        after.wf(),
        before.spec_stage() == FrameStage::Idle,
        after.spec_stage() == FrameStage::Idle,
        after.spec_gate().spec_discarded() == before.spec_gate().spec_discarded(),
    ensures
        after.spec_gate().spec_issued() - before.spec_gate().spec_issued() == after.spec_gate().spec_consumed()
            - before.spec_gate().spec_consumed(),
        after.spec_gate().outstanding_ids() == Set::<u64>::empty(),
{
    before.spec_gate().lemma_conservation();
    after.spec_gate().lemma_conservation();
}

/// Recreation drains fully: a pool of unused targets holds no completion
/// signal, and a drained pool has none left, so nothing of an earlier
/// generation is outstanding in either.
pub proof fn lemma_nothing_outstanding_after_rebuild(pool: PoolView, n: nat, generation: u64, width: u32, height: u32)
    requires
        n <= usize::MAX,
        pool.wf(n, generation, width, height),
    ensures
        PoolView::fresh(n, generation, width, height).outstanding() == Seq::<CompletionSignal>::empty(),
        PoolView::fresh(n, generation, width, height).is_drained(),
        pool.drained().outstanding() == Seq::<CompletionSignal>::empty(),
        pool.drained().is_drained(),
{
    PoolView::lemma_fresh(n, generation, width, height);
    pool.lemma_drained(n, generation, width, height);
}

/// Idempotent skip: a frame whose overlay is not rendered again leaves the
/// overlay target exactly as it was, through the opening and the settling
/// of its passes, and does not wait on the overlay's signal for the reuse.
pub proof fn lemma_skipped_overlay_is_untouched(
    pool: PoolView,
    image: int,
    drain_chain: bool,
    picker: bool,
    shadow: bool,
    overlay: bool,
    first_id: int,
    frame: u64,
)
    ensures
        begun(pool, image, drain_chain, false).overlay == pool.overlay,
        settled(pool, image, false, picker, shadow, overlay, first_id, frame).overlay == pool.overlay,
        settled(begun(pool, image, drain_chain, false), image, false, picker, shadow, overlay, first_id, frame).overlay
            == pool.overlay,
        frame_waits(pool, image, drain_chain, false) == frame_waits(pool, image, drain_chain, true).subrange(
            0,
            frame_waits(pool, image, drain_chain, false).len() as int,
        ),
{
    let short = frame_waits(pool, image, drain_chain, false);
    let long = frame_waits(pool, image, drain_chain, true);
    assert(short =~= long.subrange(0, short.len() as int));
}

} // verus!
