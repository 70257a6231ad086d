//! The fixed pass graph of a frame.

use vstd::prelude::*;

verus! {

/// The four passes of a frame. Each writes to a render target of its kind.
#[derive(Clone, Copy, Debug, PartialEq, Eq, Structural)]
pub enum PassKind {
    /// The deferred-shaded scene, whose submission is also the final composite.
    Scene,
    /// Object picking for hit-testing.
    Picker,
    /// The directional shadow map.
    Shadow,
    /// The user interface overlay.
    Overlay,
}

/// How a consumer is kept from reading a producer's output too early.
#[derive(Clone, Copy, Debug, PartialEq, Eq, Structural)]
pub enum EdgeSync {
    /// The consumer's submission names the producer's ordering signal.
    DeviceOrdered,
    /// The CPU waits on the producer's completion signal before the consumer
    /// is submitted. Only needed while the producer's buffer is displayed.
    HostWaited,
}

/// "The producer's output must be visible to the consumer before the consumer
/// executes."
#[derive(Clone, Copy, Debug, PartialEq, Eq, Structural)]
pub struct PassDependencyEdge {
    pub producer: PassKind,
    pub consumer: PassKind,
    pub sync: EdgeSync,
}

/// The edges of the pass graph: the scene's lighting samples the shadow map,
/// the composite reads the overlay, and the composite reads the picker buffer
/// while buffers are displayed.
pub open spec fn spec_dependency_edges() -> Seq<PassDependencyEdge> {
    seq![
        PassDependencyEdge { producer: PassKind::Shadow, consumer: PassKind::Scene, sync: EdgeSync::DeviceOrdered },
        PassDependencyEdge { producer: PassKind::Overlay, consumer: PassKind::Scene, sync: EdgeSync::DeviceOrdered },
        PassDependencyEdge { producer: PassKind::Picker, consumer: PassKind::Scene, sync: EdgeSync::HostWaited },
    ]
}

/// The edges of the pass graph, in a fixed order.
pub fn dependency_edges() -> (edges: Vec<PassDependencyEdge>)
    ensures
        edges@ == spec_dependency_edges(),
{
    let mut edges: Vec<PassDependencyEdge> = Vec::new();
    edges.push(PassDependencyEdge { producer: PassKind::Shadow, consumer: PassKind::Scene, sync: EdgeSync::DeviceOrdered });
    edges.push(PassDependencyEdge { producer: PassKind::Overlay, consumer: PassKind::Scene, sync: EdgeSync::DeviceOrdered });
    edges.push(PassDependencyEdge { producer: PassKind::Picker, consumer: PassKind::Scene, sync: EdgeSync::HostWaited });
    assert(edges@ =~= spec_dependency_edges());
    edges
}

impl PassKind {
    /// Position of the kind in `[Scene, Picker, Shadow, Overlay]`.
    pub open spec fn spec_index(self) -> nat {
        match self {
            PassKind::Scene => 0,
            PassKind::Picker => 1,
            PassKind::Shadow => 2,
            PassKind::Overlay => 3,
        }
    }

    /// Position of the kind in `[Scene, Picker, Shadow, Overlay]`.
    pub fn index(self) -> (i: usize)
        ensures
            i == self.spec_index(),
    {
        match self {
            PassKind::Scene => 0,
            PassKind::Picker => 1,
            PassKind::Shadow => 2,
            PassKind::Overlay => 3,
        }
    }

    /// The kind at a position, if there is one.
    pub fn from_index(i: usize) -> (kind: Option<PassKind>)
        ensures
            i < 4 ==> kind is Some && kind->0.spec_index() == i,
            i >= 4 ==> kind is None,
    {
        if i == 0 {
            Some(PassKind::Scene)
        } else if i == 1 {
            Some(PassKind::Picker)
        } else if i == 2 {
            Some(PassKind::Shadow)
        } else if i == 3 {
            Some(PassKind::Overlay)
        } else {
            None
        }
    }

    /// `self` reads the output of `producer`.
    pub open spec fn spec_depends_on(self, producer: PassKind) -> bool {
        self == PassKind::Scene && producer != PassKind::Scene
    }

    /// True when `self` reads the output of `producer`.
    pub fn depends_on(self, producer: PassKind) -> (b: bool)
        ensures
            b == self.spec_depends_on(producer),
            b == (exists|i: int|
                0 <= i < spec_dependency_edges().len()
                    && (#[trigger] spec_dependency_edges()[i]).producer == producer
                    && spec_dependency_edges()[i].consumer == self),
    {
        proof {
            let edges = spec_dependency_edges();
            assert(edges[0].producer == PassKind::Shadow);
            assert(edges[1].producer == PassKind::Overlay);
            assert(edges[2].producer == PassKind::Picker);
        }
        match (self, producer) {
            (PassKind::Scene, PassKind::Scene) => false,
            (PassKind::Scene, _) => true,
            _ => false,
        }
    }

    /// Depth of the kind in the graph: a pass of rank 0 reads no other pass.
    pub open spec fn spec_rank(self) -> nat {
        match self {
            PassKind::Scene => 1,
            _ => 0,
        }
    }

    /// Depth of the kind in the graph.
    pub fn rank(self) -> (r: u8)
        ensures
            r == self.spec_rank(),
    {
        match self {
            PassKind::Scene => 1,
            _ => 0,
        }
    }

    /// Neither pass reads the other, so the two may be recorded and submitted
    /// in any order, or at the same time.
    pub open spec fn spec_independent(self, other: PassKind) -> bool {
        !self.spec_depends_on(other) && !other.spec_depends_on(self)
    }

    /// True when the two passes are unordered.
    pub fn independent(self, other: PassKind) -> (b: bool)
        ensures
            b == self.spec_independent(other),
    {
        !self.depends_on(other) && !other.depends_on(self)
    }

    /// The submission of this kind produces an ordering signal, because its
    /// output feeds another submission or the presentation.
    pub open spec fn spec_emits_ordering(self) -> bool {
        self != PassKind::Picker
    }

    /// True when a submission of this kind produces an ordering signal.
    pub fn emits_ordering(self) -> (b: bool)
        ensures
            b == self.spec_emits_ordering(),
    {
        match self {
            PassKind::Picker => false,
            _ => true,
        }
    }
}

/// Every edge leads from a pass of lower rank to one of higher rank, so the
/// graph has no cycle, and a pass never depends on itself.
pub proof fn lemma_graph_is_acyclic(consumer: PassKind, producer: PassKind)
    requires
        consumer.spec_depends_on(producer),
    ensures
        producer.spec_rank() < consumer.spec_rank(),
        consumer != producer,
        !producer.spec_depends_on(consumer),
{
}

/// Picker, Shadow and Overlay are pairwise unordered; only the scene waits.
pub proof fn lemma_fan_out_is_unordered(a: PassKind, b: PassKind)
    requires
        a != PassKind::Scene,
        b != PassKind::Scene,
    ensures
        a.spec_independent(b),
{
}

/// Each edge that is kept by an ordering signal starts at a pass that emits one.
pub proof fn lemma_ordering_edges_have_signals(i: int)
    requires
        0 <= i < spec_dependency_edges().len(),
        spec_dependency_edges()[i].sync == EdgeSync::DeviceOrdered,
    ensures
        spec_dependency_edges()[i].producer.spec_emits_ordering(),
        spec_dependency_edges()[i].consumer.spec_depends_on(spec_dependency_edges()[i].producer),
{
}

} // verus!
