use vstd::prelude::*;
use crate::config::NUMBER_OF_NODES;

verus! {

/// Whether a node's hatch is empty and ready to receive a dispense, or holds
/// a dispensed portion waiting to be dumped into the bag.
#[derive(Clone, Copy, Debug, PartialEq, Eq, Structural)]
pub enum NodeState {
    Ready,
    Dispensed,
}

/// Whether a bag is held under the hatches.
#[derive(Clone, Copy, Debug, PartialEq, Eq, Structural)]
pub enum BagLoadedState {
    Bagless,
    Bagful,
}

/// How far the held bag has been filled.
#[derive(Clone, Copy, Debug, PartialEq, Eq, Structural)]
pub enum BagFilledState {
    Empty,
    Filling,
    Filled,
}

/// Mathematical model of the machine state.
#[verifier::ext_equal]
pub struct RyoStateView {
    pub nodes: Seq<NodeState>,
    pub bag_loaded: BagLoadedState,
    pub bag_filled: Option<BagFilledState>,
}

/// What the cycle knows about the machine between two of its steps.
#[derive(Clone, Copy, Debug)]
pub struct RyoState {
    nodes: [NodeState; NUMBER_OF_NODES],
    bag_loaded: BagLoadedState,
    bag_filled: Option<BagFilledState>,
}

impl View for RyoState {
    type V = RyoStateView;

    closed spec fn view(&self) -> RyoStateView {
        RyoStateView { nodes: self.nodes@, bag_loaded: self.bag_loaded, bag_filled: self.bag_filled }
    }
}

/// The model with node `id` set to `s`.
pub open spec fn with_node(v: RyoStateView, id: int, s: NodeState) -> RyoStateView {
    RyoStateView { nodes: v.nodes.update(id, s), bag_loaded: v.bag_loaded, bag_filled: v.bag_filled }
}

/// The model with every node set to `s`.
pub open spec fn with_all_nodes(v: RyoStateView, s: NodeState) -> RyoStateView {
    RyoStateView {
        nodes: Seq::new(NUMBER_OF_NODES as nat, |_i: int| s),
        bag_loaded: v.bag_loaded,
        bag_filled: v.bag_filled,
    }
}

/// The model with the bag loaded state set to `b`.
pub open spec fn with_bag_loaded(v: RyoStateView, b: BagLoadedState) -> RyoStateView {
    RyoStateView { nodes: v.nodes, bag_loaded: b, bag_filled: v.bag_filled }
}

/// The model with the bag filled state set to `f`.
pub open spec fn with_bag_filled(v: RyoStateView, f: Option<BagFilledState>) -> RyoStateView {
    RyoStateView { nodes: v.nodes, bag_loaded: v.bag_loaded, bag_filled: f }
}

/// Every machine state tracks exactly one entry per node.
pub broadcast proof fn lemma_state_has_every_node(s: RyoState)
    ensures
        #[trigger] s@.nodes.len() == NUMBER_OF_NODES,
{
    broadcast use vstd::array::array_len_matches_n;
    assert(s.nodes@.len() == NUMBER_OF_NODES);
}

impl RyoState {
    /// The state of a machine that has just been prepared: no bag held, nothing
    /// filled, and every hatch empty.
    pub fn fresh() -> (s: RyoState)
        ensures
            s@.nodes == Seq::new(NUMBER_OF_NODES as nat, |_i: int| NodeState::Ready),
            s@.bag_loaded == BagLoadedState::Bagless,
            s@.bag_filled == None::<BagFilledState>,
    {
        let s = RyoState {
            nodes: [NodeState::Ready, NodeState::Ready, NodeState::Ready, NodeState::Ready],
            bag_loaded: BagLoadedState::Bagless,
            bag_filled: None,
        };
        assert(s@.nodes =~= Seq::new(NUMBER_OF_NODES as nat, |_i: int| NodeState::Ready));
        s
    }

    pub fn get_node_state(&self, id: usize) -> (s: NodeState)
        requires
            id < NUMBER_OF_NODES,
        ensures
            s == self@.nodes[id as int],
    {
        self.nodes[id]
    }

    pub fn set_node_state(&mut self, id: usize, s: NodeState)
        requires
            id < NUMBER_OF_NODES,
        ensures
            final(self)@ == with_node(old(self)@, id as int, s),
    {
        self.nodes[id] = s;
    }

    pub fn set_all_node_states(&mut self, s: NodeState)
        ensures
            final(self)@ == with_all_nodes(old(self)@, s),
    {
        self.nodes = [s, s, s, s];
        assert(self@.nodes =~= Seq::new(NUMBER_OF_NODES as nat, |_i: int| s));
    }

    pub fn get_bag_loaded_state(&self) -> (b: BagLoadedState)
        ensures
            b == self@.bag_loaded,
    {
        self.bag_loaded
    }

    pub fn set_bag_loaded_state(&mut self, b: BagLoadedState)
        ensures
            final(self)@ == with_bag_loaded(old(self)@, b),
    {
        self.bag_loaded = b;
    }

    pub fn get_bag_filled_state(&self) -> (f: Option<BagFilledState>)
        ensures
            f == self@.bag_filled,
    {
        self.bag_filled
    }

    pub fn set_bag_filled_state(&mut self, f: Option<BagFilledState>)
        ensures
            final(self)@ == with_bag_filled(old(self)@, f),
    {
        self.bag_filled = f;
    }
}

/// Setting one node changes that node only; setting every node gives one
/// entry per node, all equal; setting a bag state changes that field only.
pub proof fn lemma_updates_change_only_their_field(
    v: RyoStateView,
    id: int,
    n: NodeState,
    b: BagLoadedState,
    f: Option<BagFilledState>,
)
    requires
        0 <= id < v.nodes.len(),
    ensures
        with_node(v, id, n).nodes.len() == v.nodes.len(),
        with_node(v, id, n).nodes[id] == n,
        forall|j: int|
            0 <= j < v.nodes.len() && j != id ==> #[trigger] with_node(v, id, n).nodes[j]
                == v.nodes[j],
        with_node(v, id, n).bag_loaded == v.bag_loaded,
        with_node(v, id, n).bag_filled == v.bag_filled,
        with_all_nodes(v, n).nodes.len() == NUMBER_OF_NODES,
        forall|j: int| 0 <= j < NUMBER_OF_NODES ==> #[trigger] with_all_nodes(v, n).nodes[j] == n,
        with_all_nodes(v, n).bag_loaded == v.bag_loaded,
        with_all_nodes(v, n).bag_filled == v.bag_filled,
        with_bag_loaded(v, b) == (RyoStateView {
            nodes: v.nodes,
            bag_loaded: b,
            bag_filled: v.bag_filled,
        }),
        with_bag_filled(v, f) == (RyoStateView {
            nodes: v.nodes,
            bag_loaded: v.bag_loaded,
            bag_filled: f,
        }),
{
}

} // verus!
