//! The synchronization gate: the single place that decides whether a wait is
//! due and on what, and that accounts for every ordering signal.

use vstd::prelude::*;
use crate::error::RenderError;
use crate::signal::{CompletionSignal, OrderingSignal, UploadSignal};
use crate::target::RenderTarget;

verus! {

/// Bookkeeping of signals.
///
/// Identifiers are handed out in increasing order and never twice. Every
/// ordering signal is outstanding from the moment it is issued until it is
/// consumed by the submission that waits on it, or discarded.
pub struct SynchronizationGate {
    next_id: u64,
    outstanding: Vec<u64>,
    issued: u64,
    consumed: u64,
    discarded: u64,
    deferred: Vec<UploadSignal>,
}

/// Removing the element at `i` from a sequence without repeats removes its
/// value from the set of elements and leaves no repeats.
proof fn lemma_remove_from_set(s: Seq<u64>, i: int)
    requires
        s.no_duplicates(),
        0 <= i < s.len(),
    ensures
        s.remove(i).no_duplicates(),
        s.remove(i).to_set() == s.to_set().remove(s[i]),
{
    let r = s.remove(i);
    assert forall|a: int, b: int| 0 <= a < r.len() && 0 <= b < r.len() && a != b implies r[a] != r[b] by {
        let a2 = if a < i { a } else { a + 1 };
        let b2 = if b < i { b } else { b + 1 };
        assert(r[a] == s[a2]);
        assert(r[b] == s[b2]);
    }
    assert forall|v: u64| r.to_set().contains(v) <==> s.to_set().remove(s[i]).contains(v) by {
        if r.contains(v) {
            let k = choose|k: int| 0 <= k < r.len() && r[k] == v;
            let k2 = if k < i { k } else { k + 1 };
            assert(s[k2] == v);
            assert(s.contains(v));
        }
        if s.contains(v) && v != s[i] {
            let k = choose|k: int| 0 <= k < s.len() && s[k] == v;
            let k2 = if k < i { k } else { k - 1 };
            assert(r[k2] == v);
            assert(r.contains(v));
        }
    }
    assert(r.to_set() =~= s.to_set().remove(s[i]));
}

/// Appending a fresh value adds it to the set of elements.
proof fn lemma_push_to_set(s: Seq<u64>, v: u64)
    requires
        s.no_duplicates(),
        !s.contains(v),
    ensures
        s.push(v).no_duplicates(),
        s.push(v).to_set() == s.to_set().insert(v),
{
    let p = s.push(v);
    assert forall|a: int, b: int| 0 <= a < p.len() && 0 <= b < p.len() && a != b implies p[a] != p[b] by {
        if a < s.len() {
            assert(s.contains(p[a]));
        }
        if b < s.len() {
            assert(s.contains(p[b]));
        }
    }
    assert forall|x: u64| p.to_set().contains(x) <==> s.to_set().insert(v).contains(x) by {
        if p.contains(x) {
            let k = choose|k: int| 0 <= k < p.len() && p[k] == x;
            if k < s.len() {
                assert(s[k] == x);
                assert(s.contains(x));
            }
        }
        if s.contains(x) {
            let k = choose|k: int| 0 <= k < s.len() && s[k] == x;
            assert(p[k] == x);
        }
        assert(p[s.len() as int] == v);
    }
    assert(p.to_set() =~= s.to_set().insert(v));
}

impl SynchronizationGate {
    /// The identifiers are fresh, the outstanding ones distinct, and every
    /// issued ordering signal is accounted for exactly once.
    pub closed spec fn wf(&self) -> bool {
        &&& self.outstanding@.no_duplicates()
        &&& forall|i: int| 0 <= i < self.outstanding@.len() ==> self.outstanding@[i] < self.next_id
        &&& self.issued <= self.next_id
        &&& self.issued == self.consumed + self.discarded + self.outstanding@.len()
    }

    /// The identifier that the next signal will carry.
    pub closed spec fn spec_next_id(&self) -> u64 {
        self.next_id
    }

    /// The ordering signals that were issued and neither consumed nor discarded.
    pub closed spec fn outstanding_ids(&self) -> Set<u64> {
        self.outstanding@.to_set()
    }

    /// How many ordering signals are outstanding.
    pub closed spec fn spec_outstanding_count(&self) -> nat {
        self.outstanding@.len()
    }

    /// How many ordering signals were issued so far.
    pub closed spec fn spec_issued(&self) -> nat {
        self.issued as nat
    }

    /// How many ordering signals were consumed by a waiter.
    pub closed spec fn spec_consumed(&self) -> nat {
        self.consumed as nat
    }

    /// How many ordering signals were dropped without a waiter.
    pub closed spec fn spec_discarded(&self) -> nat {
        self.discarded as nat
    }

    /// The uploads whose wait was put off, oldest first.
    pub closed spec fn deferred_uploads(&self) -> Seq<UploadSignal> {
        self.deferred@
    }

    /// Every issued ordering signal is either consumed, discarded or still
    /// outstanding, and the outstanding ones are counted without repeats.
    pub proof fn lemma_conservation(&self)
        requires
            self.wf(),
        ensures
            self.spec_issued() == self.spec_consumed() + self.spec_discarded()
                + self.spec_outstanding_count(),
            self.outstanding_ids().finite(),
            self.outstanding_ids().len() == self.spec_outstanding_count(),
            forall|id: u64| self.outstanding_ids().contains(id) ==> id < self.spec_next_id(),
    {
        self.outstanding@.unique_seq_to_set();
        vstd::seq_lib::seq_to_set_is_finite(self.outstanding@);
        assert forall|id: u64| self.outstanding_ids().contains(id) implies id < self.spec_next_id() by {
            let k = choose|k: int| 0 <= k < self.outstanding@.len() && self.outstanding@[k] == id;
            assert(self.outstanding@[k] < self.next_id);
        }
    }

    /// A gate that has issued nothing.
    pub fn new() -> (gate: SynchronizationGate)
        ensures
            gate.wf(),
            gate.spec_next_id() == 0,
            gate.outstanding_ids() == Set::<u64>::empty(),
            gate.spec_outstanding_count() == 0,
            gate.spec_issued() == 0,
            gate.spec_consumed() == 0,
            gate.spec_discarded() == 0,
            gate.deferred_uploads() == Seq::<UploadSignal>::empty(),
    {
        let gate = SynchronizationGate {
            next_id: 0,
            outstanding: Vec::new(),
            issued: 0,
            consumed: 0,
            discarded: 0,
            deferred: Vec::new(),
        };
        assert(gate.outstanding@.to_set() =~= Set::<u64>::empty());
        gate
    }

    /// The identifier that the next signal will carry.
    pub fn next_id(&self) -> (id: u64)
        ensures
            id == self.spec_next_id(),
    {
        self.next_id
    }

    /// How many more signals can be issued.
    pub fn spare_ids(&self) -> (n: u64)
        ensures
            n == u64::MAX - self.spec_next_id(),
    {
        u64::MAX - self.next_id
    }

    /// How many ordering signals are outstanding.
    pub fn outstanding_count(&self) -> (n: usize)
        ensures
            n == self.spec_outstanding_count(),
    {
        self.outstanding.len()
    }

    /// How many ordering signals were issued so far.
    pub fn issued(&self) -> (n: u64)
        ensures
            n == self.spec_issued(),
    {
        self.issued
    }

    /// How many ordering signals were consumed by a waiter.
    pub fn consumed(&self) -> (n: u64)
        ensures
            n == self.spec_consumed(),
    {
        self.consumed
    }

    /// How many ordering signals were dropped without a waiter.
    pub fn discarded(&self) -> (n: u64)
        ensures
            n == self.spec_discarded(),
    {
        self.discarded
    }

    /// Issues the completion signal of a submission.
    pub fn issue_completion(&mut self) -> (signal: CompletionSignal)
        requires
            old(self).wf(),
            old(self).spec_next_id() < u64::MAX,
        ensures
            final(self).wf(),
            signal.id == old(self).spec_next_id(),
            final(self).spec_next_id() == old(self).spec_next_id() + 1,
            final(self).outstanding_ids() == old(self).outstanding_ids(),
            final(self).spec_outstanding_count() == old(self).spec_outstanding_count(),
            final(self).spec_issued() == old(self).spec_issued(),
            final(self).spec_consumed() == old(self).spec_consumed(),
            final(self).spec_discarded() == old(self).spec_discarded(),
            final(self).deferred_uploads() == old(self).deferred_uploads(),
    {
        let id = self.next_id;
        self.next_id = id + 1;
        CompletionSignal { id }
    }

    /// Issues the ordering signal of a submission. It is outstanding until it
    /// is consumed or discarded.
    pub fn issue_ordering(&mut self) -> (signal: OrderingSignal)
        requires
            old(self).wf(),
            old(self).spec_next_id() < u64::MAX,
        ensures
            final(self).wf(),
            signal.id == old(self).spec_next_id(),
            !old(self).outstanding_ids().contains(signal.id),
            final(self).spec_next_id() == old(self).spec_next_id() + 1,
            final(self).outstanding_ids() == old(self).outstanding_ids().insert(signal.id),
            final(self).spec_outstanding_count() == old(self).spec_outstanding_count() + 1,
            final(self).spec_issued() == old(self).spec_issued() + 1,
            final(self).spec_consumed() == old(self).spec_consumed(),
            final(self).spec_discarded() == old(self).spec_discarded(),
            final(self).deferred_uploads() == old(self).deferred_uploads(),
    {
        let id = self.next_id;
        proof {
            if self.outstanding@.contains(id) {
                let k = choose|k: int| 0 <= k < self.outstanding@.len() && self.outstanding@[k] == id;
                assert(self.outstanding@[k] < self.next_id);
            }
            lemma_push_to_set(self.outstanding@, id);
        }
        self.outstanding.push(id);
        self.next_id = id + 1;
        self.issued = self.issued + 1;
        OrderingSignal { id }
    }

    /// True while the signal is issued and neither consumed nor discarded.
    pub fn is_outstanding(&self, signal: OrderingSignal) -> (b: bool)
        ensures
            b == self.outstanding_ids().contains(signal.id),
    {
        self.position(signal.id).is_some()
    }

    fn position(&self, id: u64) -> (at: Option<usize>)
        ensures
            at is Some ==> at->0 < self.outstanding@.len() && self.outstanding@[at->0 as int] == id,
            at is None ==> !self.outstanding@.contains(id),
            (at is Some) == self.outstanding@.to_set().contains(id),
    {
        let mut i: usize = 0;
        while i < self.outstanding.len()
            invariant
                i <= self.outstanding@.len(),
                forall|k: int| 0 <= k < i ==> self.outstanding@[k] != id,
            decreases self.outstanding@.len() - i,
        {
            if self.outstanding[i] == id {
                assert(self.outstanding@.contains(id));
                return Some(i);
            }
            i = i + 1;
        }
        None
    }

    /// Hands the signal to its one waiter. Returns false, and changes
    /// nothing, when the signal is not outstanding: it was never issued
    /// here, or it already went to a waiter.
    pub fn consume(&mut self, signal: OrderingSignal) -> (taken: bool)
        requires
            old(self).wf(),
        ensures
            final(self).wf(),
            taken == old(self).outstanding_ids().contains(signal.id),
            final(self).outstanding_ids() == old(self).outstanding_ids().remove(signal.id),
            !final(self).outstanding_ids().contains(signal.id),
            taken ==> final(self).spec_outstanding_count() + 1 == old(self).spec_outstanding_count(),
            taken ==> final(self).spec_consumed() == old(self).spec_consumed() + 1,
            !taken ==> final(self).spec_outstanding_count() == old(self).spec_outstanding_count(),
            !taken ==> final(self).spec_consumed() == old(self).spec_consumed(),
            final(self).spec_next_id() == old(self).spec_next_id(),
            final(self).spec_issued() == old(self).spec_issued(),
            final(self).spec_discarded() == old(self).spec_discarded(),
            final(self).deferred_uploads() == old(self).deferred_uploads(),
    {
        match self.position(signal.id) {
            Some(at) => {
                proof {
                    lemma_remove_from_set(self.outstanding@, at as int);
                }
                self.outstanding.remove(at);
                self.consumed = self.consumed + 1;
                true
            },
            None => {
                assert(self.outstanding@.to_set().remove(signal.id) =~= self.outstanding@.to_set());
                false
            },
        }
    }

    /// Drops the signal without a waiter. Returns false, and changes
    /// nothing, when the signal is not outstanding.
    pub fn discard(&mut self, signal: OrderingSignal) -> (dropped: bool)
        requires
            old(self).wf(),
        ensures
            final(self).wf(),
            dropped == old(self).outstanding_ids().contains(signal.id),
            final(self).outstanding_ids() == old(self).outstanding_ids().remove(signal.id),
            !final(self).outstanding_ids().contains(signal.id),
            dropped ==> final(self).spec_outstanding_count() + 1 == old(self).spec_outstanding_count(),
            dropped ==> final(self).spec_discarded() == old(self).spec_discarded() + 1,
            !dropped ==> final(self).spec_outstanding_count() == old(self).spec_outstanding_count(),
            !dropped ==> final(self).spec_discarded() == old(self).spec_discarded(),
            final(self).spec_next_id() == old(self).spec_next_id(),
            final(self).spec_issued() == old(self).spec_issued(),
            final(self).spec_consumed() == old(self).spec_consumed(),
            final(self).deferred_uploads() == old(self).deferred_uploads(),
    {
        match self.position(signal.id) {
            Some(at) => {
                proof {
                    lemma_remove_from_set(self.outstanding@, at as int);
                }
                self.outstanding.remove(at);
                self.discarded = self.discarded + 1;
                true
            },
            None => {
                assert(self.outstanding@.to_set().remove(signal.id) =~= self.outstanding@.to_set());
                false
            },
        }
    }

    /// Drops every outstanding ordering signal and returns how many there
    /// were. Used where a frame is abandoned or the surface is rebuilt.
    pub fn discard_all(&mut self) -> (dropped: usize)
        requires
            old(self).wf(),
        ensures
            final(self).wf(),
            dropped == old(self).spec_outstanding_count(),
            final(self).outstanding_ids() == Set::<u64>::empty(),
            final(self).spec_outstanding_count() == 0,
            final(self).spec_discarded() == old(self).spec_discarded() + dropped,
            final(self).spec_next_id() == old(self).spec_next_id(),
            final(self).spec_issued() == old(self).spec_issued(),
            final(self).spec_consumed() == old(self).spec_consumed(),
            final(self).deferred_uploads() == old(self).deferred_uploads(),
    {
        let dropped = self.outstanding.len();
        self.discarded = self.discarded + dropped as u64;
        self.outstanding.clear();
        assert(self.outstanding@.to_set() =~= Set::<u64>::empty());
        dropped
    }

    /// Checks that no ordering signal was left without a waiter.
    pub fn check_conserved(&self) -> (r: Result<(), RenderError>)
        ensures
            r is Ok <==> self.spec_outstanding_count() == 0,
            r is Err ==> r == Err::<(), RenderError>(RenderError::SignalLeak),
    {
        if self.outstanding.len() == 0 {
            Ok(())
        } else {
            Err(RenderError::SignalLeak)
        }
    }

    /// Hands a set of ordering signals to the one submission that waits on
    /// all of them: the overlay's, if the overlay was submitted this frame,
    /// then the shadow map's, then the acquisition's.
    pub fn join(
        &mut self,
        overlay: Option<OrderingSignal>,
        shadow: OrderingSignal,
        acquire: OrderingSignal,
    ) -> (joined: Vec<OrderingSignal>)
        requires
            old(self).wf(),
            old(self).outstanding_ids().contains(shadow.id),
            old(self).outstanding_ids().contains(acquire.id),
            shadow.id != acquire.id,
            overlay matches Some(o) ==> old(self).outstanding_ids().contains(o.id) && o.id != shadow.id
                && o.id != acquire.id,
        ensures
            final(self).wf(),
            joined@ == spec_joined(overlay, shadow, acquire),
            final(self).outstanding_ids() == old(self).outstanding_ids().difference(
                joined@.map_values(|s: OrderingSignal| s.id).to_set(),
            ),
            final(self).spec_outstanding_count() + joined@.len() == old(self).spec_outstanding_count(),
            final(self).spec_consumed() == old(self).spec_consumed() + joined@.len(),
            final(self).spec_next_id() == old(self).spec_next_id(),
            final(self).spec_issued() == old(self).spec_issued(),
            final(self).spec_discarded() == old(self).spec_discarded(),
            final(self).deferred_uploads() == old(self).deferred_uploads(),
    {
        let mut joined: Vec<OrderingSignal> = Vec::new();
        match overlay {
            Some(o) => {
                self.consume(o);
                joined.push(o);
            },
            None => {},
        }
        self.consume(shadow);
        joined.push(shadow);
        self.consume(acquire);
        joined.push(acquire);
        proof {
            assert(joined@ =~= spec_joined(overlay, shadow, acquire));
            let ids = joined@.map_values(|s: OrderingSignal| s.id);
            assert forall|x: u64| ids.to_set().contains(x) <==> (x == shadow.id || x == acquire.id || (overlay
                matches Some(o) && x == o.id)) by {
                if ids.contains(x) {
                    let k = choose|k: int| 0 <= k < ids.len() && ids[k] == x;
                    assert(ids[k] == joined@[k].id);
                }
                let n = joined@.len() as int;
                assert(ids[n - 1] == acquire.id);
                assert(ids[n - 2] == shadow.id);
                if overlay is Some {
                    assert(ids[0] == overlay->0.id);
                }
            }
            assert(final(self).outstanding_ids() =~= old(self).outstanding_ids().difference(ids.to_set()));
        }
        joined
    }

    /// Decides what to do with an upload that was in flight at frame start.
    ///
    /// A new upload joins those put off earlier. When this frame's passes read
    /// uploaded resources, all of them are returned, oldest first, to be waited
    /// on now; otherwise nothing is returned and all stay put off.
    pub fn admit_upload(&mut self, upload: Option<UploadSignal>, consumed_this_frame: bool) -> (waits: Vec<
        UploadSignal,
    >)
        requires
            old(self).wf(),
        ensures
            final(self).wf(),
            waits@ == spec_upload_waits(old(self).deferred_uploads(), upload, consumed_this_frame),
            final(self).deferred_uploads() == spec_upload_deferred(
                old(self).deferred_uploads(),
                upload,
                consumed_this_frame,
            ),
            final(self).spec_next_id() == old(self).spec_next_id(),
            final(self).outstanding_ids() == old(self).outstanding_ids(),
            final(self).spec_outstanding_count() == old(self).spec_outstanding_count(),
            final(self).spec_issued() == old(self).spec_issued(),
            final(self).spec_consumed() == old(self).spec_consumed(),
            final(self).spec_discarded() == old(self).spec_discarded(),
    {
        match upload {
            Some(u) => {
                self.deferred.push(u);
            },
            None => {},
        }
        assert(self.deferred@ =~= old(self).deferred@ + crate::signal::slot_seq(upload));
        if consumed_this_frame {
            let mut waits: Vec<UploadSignal> = Vec::new();
            std::mem::swap(&mut waits, &mut self.deferred);
            waits
        } else {
            Vec::new()
        }
    }

    /// True when the target still holds a completion signal, so that it must
    /// be waited on before the target is used again.
    pub fn must_wait(&self, target: &RenderTarget) -> (b: bool)
        requires
            target.wf(),
        ensures
            b == target.spec_completion() is Some,
            b == target.spec_is_submitted(),
    {
        target.is_submitted()
    }

    /// Prepares a target for reuse: takes its completion signal, if it holds
    /// one, and leaves the target idle. The caller waits on the returned
    /// signal before it touches the target's resources.
    pub fn reclaim(&self, target: &mut RenderTarget) -> (wait: Option<CompletionSignal>)
        requires
            old(target).wf(),
            !old(target).spec_is_recording(),
        ensures
            final(target).wf(),
            wait == old(target).spec_completion(),
            final(target).spec_is_idle(),
            *final(target) == old(target).spec_reclaimed(),
    {
        target.try_take_fence()
    }
}

/// The signals of a composite submission in the order in which they are joined.
pub open spec fn spec_joined(overlay: Option<OrderingSignal>, shadow: OrderingSignal, acquire: OrderingSignal) -> Seq<
    OrderingSignal,
> {
    crate::signal::slot_seq(overlay) + seq![shadow, acquire]
}

/// The uploads to wait on in this frame.
pub open spec fn spec_upload_waits(deferred: Seq<UploadSignal>, upload: Option<UploadSignal>, consumed: bool) -> Seq<
    UploadSignal,
> {
    if consumed {
        deferred + crate::signal::slot_seq(upload)
    } else {
        Seq::empty()
    }
}

/// The uploads whose wait is put off to a later frame.
pub open spec fn spec_upload_deferred(deferred: Seq<UploadSignal>, upload: Option<UploadSignal>, consumed: bool) -> Seq<
    UploadSignal,
> {
    if consumed {
        Seq::empty()
    } else {
        deferred + crate::signal::slot_seq(upload)
    }
}

} // verus!
