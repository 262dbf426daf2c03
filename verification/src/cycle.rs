use vstd::prelude::*;
use crate::config::NUMBER_OF_NODES;
use crate::sensors::BagSensorState;
use crate::state::{
    BagFilledState, BagLoadedState, NodeState, RyoState, RyoStateView, lemma_state_has_every_node,
    with_all_nodes, with_bag_filled, with_bag_loaded, with_node,
};

verus! {

broadcast use lemma_state_has_every_node;

/// The Ready nodes among the first `n` nodes, lowest first.
pub open spec fn ready_nodes_below(nodes: Seq<NodeState>, n: nat) -> Seq<usize>
    decreases n,
{
    if n == 0 {
        Seq::empty()
    } else {
        let prev = ready_nodes_below(nodes, (n - 1) as nat);
        if nodes[n - 1] == NodeState::Ready {
            prev.push((n - 1) as usize)
        } else {
            prev
        }
    }
}

/// The nodes a cycle dispenses into while it loads a bag: none when the bag
/// is already full, otherwise every Ready node, lowest first.
pub open spec fn dispense_targets(s: RyoStateView) -> Seq<usize> {
    if s.bag_filled == Some(BagFilledState::Filled) {
        Seq::empty()
    } else {
        ready_nodes_below(s.nodes, NUMBER_OF_NODES as nat)
    }
}

/// The ids of the nodes to dispense into, as `dispense_targets` describes them.
pub fn dispense_nodes(state: &RyoState) -> (ids: Vec<usize>)
    ensures
        ids@ == dispense_targets(state@),
{
    let mut ids: Vec<usize> = Vec::with_capacity(NUMBER_OF_NODES);
    match state.get_bag_filled_state() {
        Some(BagFilledState::Filled) => {},
        _ => {
            let mut id: usize = 0;
            while id < NUMBER_OF_NODES
                invariant
                    id <= NUMBER_OF_NODES,
                    state@.nodes.len() == NUMBER_OF_NODES,
                    ids@ == ready_nodes_below(state@.nodes, id as nat),
                decreases NUMBER_OF_NODES - id,
            {
                match state.get_node_state(id) {
                    NodeState::Ready => ids.push(id),
                    NodeState::Dispensed => {},
                }
                id += 1;
            }
        },
    }
    ids
}

/// Where a bagging cycle stands, and which event it waits for.
#[derive(Clone, Copy, Debug, PartialEq, Eq, Structural)]
pub enum CyclePhase {
    /// A bag is being fetched and loaded while the listed nodes dispense.
    LoadingBag,
    /// The gantry is at the node and the bag sensor is being read.
    Inspecting(usize),
    /// The node's hatch is being emptied into the bag.
    Dumping(usize),
    /// The full bag is being dropped and the bag sensor read.
    DroppingBag,
    /// The dropped bag is being sealed while the machine resets.
    Sealing,
    /// The cycle is over.
    Finished,
}

/// What the machine must do next for the cycle.
#[derive(Debug, PartialEq, Eq)]
pub enum CycleAction {
    /// Fetch a bag, send the gantry home, then dispense into the listed nodes
    /// while loading the bag; report `Completed`.
    LoadBag(Vec<usize>),
    /// Move the gantry to the node and read the bag sensor.
    InspectNode(usize),
    /// Empty the node's hatch into the bag; report `Completed`.
    DumpHatch(usize),
    /// Drop the bag and read the bag sensor.
    DropBag,
    /// Seal and release the bag in the background and reset the machine;
    /// report `Completed`.
    SealAndReset,
    /// Nothing more to do: the cycle is over.
    Finish,
}

/// Model of a `CycleAction`.
pub enum CycleActionView {
    LoadBag(Seq<usize>),
    InspectNode(usize),
    DumpHatch(usize),
    DropBag,
    SealAndReset,
    Finish,
}

impl View for CycleAction {
    type V = CycleActionView;

    open spec fn view(&self) -> CycleActionView {
        match self {
            CycleAction::LoadBag(ids) => CycleActionView::LoadBag(ids@),
            CycleAction::InspectNode(i) => CycleActionView::InspectNode(*i),
            CycleAction::DumpHatch(i) => CycleActionView::DumpHatch(*i),
            CycleAction::DropBag => CycleActionView::DropBag,
            CycleAction::SealAndReset => CycleActionView::SealAndReset,
            CycleAction::Finish => CycleActionView::Finish,
        }
    }
}

/// What the machine reports after carrying out an action.
#[derive(Clone, Copy, Debug, PartialEq, Eq, Structural)]
pub enum CycleEvent {
    /// The action has been carried out.
    Completed,
    /// The action ended with this reading of the bag sensor.
    BagSensor(BagSensorState),
}

/// A step of the cycle: the phase it moves to, the machine state after it,
/// and the action it asks for.
pub type CycleStep = (CyclePhase, RyoStateView, CycleActionView);

/// The event that the cycle waits for in `phase`; none once it is finished.
pub open spec fn expects(phase: CyclePhase, event: CycleEvent) -> bool {
    match phase {
        CyclePhase::LoadingBag | CyclePhase::Dumping(_) | CyclePhase::Sealing => event
            == CycleEvent::Completed,
        CyclePhase::Inspecting(_) | CyclePhase::DroppingBag => event is BagSensor,
        CyclePhase::Finished => false,
    }
}

/// Filling a held bag: an empty or partly filled bag is filled from node 0 on;
/// a full bag is dropped; with no fill state known the cycle ends.
pub open spec fn fill_entry(s: RyoStateView) -> CycleStep {
    match s.bag_filled {
        Some(BagFilledState::Filled) => (CyclePhase::DroppingBag, s, CycleActionView::DropBag),
        None => (CyclePhase::Finished, s, CycleActionView::Finish),
        _ => (
            CyclePhase::Inspecting(0),
            with_bag_filled(s, Some(BagFilledState::Filling)),
            CycleActionView::InspectNode(0),
        ),
    }
}

/// The first step of a cycle: without a bag, load one while dispensing;
/// with a bag, go on filling it.
pub open spec fn cycle_start(s: RyoStateView) -> CycleStep {
    match s.bag_loaded {
        BagLoadedState::Bagless => (
            CyclePhase::LoadingBag,
            s,
            CycleActionView::LoadBag(dispense_targets(s)),
        ),
        BagLoadedState::Bagful => fill_entry(s),
    }
}

/// The machine state once a bag has been loaded and every node dispensed.
pub open spec fn loaded_bag(s: RyoStateView) -> RyoStateView {
    with_bag_filled(
        with_all_nodes(with_bag_loaded(s, BagLoadedState::Bagful), NodeState::Dispensed),
        Some(BagFilledState::Filling),
    )
}

/// After node `i` is handled: inspect the next node, or, after the last one,
/// mark the bag full and drop it.
pub open spec fn after_node(i: usize, s: RyoStateView) -> CycleStep {
    if i + 1 < NUMBER_OF_NODES {
        (
            CyclePhase::Inspecting((i + 1) as usize),
            s,
            CycleActionView::InspectNode((i + 1) as usize),
        )
    } else {
        (
            CyclePhase::DroppingBag,
            with_bag_filled(s, Some(BagFilledState::Filled)),
            CycleActionView::DropBag,
        )
    }
}

/// One step of a cycle, from the event the machine reports.
pub open spec fn cycle_next(phase: CyclePhase, s: RyoStateView, event: CycleEvent) -> CycleStep
    recommends
        expects(phase, event),
{
    match phase {
        CyclePhase::LoadingBag => fill_entry(loaded_bag(s)),
        CyclePhase::Inspecting(i) => match event {
            CycleEvent::BagSensor(BagSensorState::Bagless) => (
                CyclePhase::Finished,
                with_bag_loaded(s, BagLoadedState::Bagless),
                CycleActionView::Finish,
            ),
            _ => if s.nodes[i as int] == NodeState::Dispensed {
                (CyclePhase::Dumping(i), s, CycleActionView::DumpHatch(i))
            } else {
                after_node(i, s)
            },
        },
        CyclePhase::Dumping(i) => after_node(i, with_node(s, i as int, NodeState::Ready)),
        CyclePhase::DroppingBag => match event {
            CycleEvent::BagSensor(BagSensorState::Bagless) => (
                CyclePhase::Sealing,
                with_bag_filled(with_bag_loaded(s, BagLoadedState::Bagless), None),
                CycleActionView::SealAndReset,
            ),
            _ => (CyclePhase::Finished, s, CycleActionView::Finish),
        },
        CyclePhase::Sealing | CyclePhase::Finished => (
            CyclePhase::Finished,
            s,
            CycleActionView::Finish,
        ),
    }
}

/// What holds of the machine state in each phase of a cycle.
pub open spec fn cycle_inv(phase: CyclePhase, s: RyoStateView) -> bool {
    &&& s.nodes.len() == NUMBER_OF_NODES
    &&& match phase {
        CyclePhase::LoadingBag => s.bag_loaded == BagLoadedState::Bagless,
        CyclePhase::Inspecting(i) => filling_from(i, s),
        CyclePhase::Dumping(i) => filling_from(i, s) && s.nodes[i as int] == NodeState::Dispensed,
        CyclePhase::DroppingBag => s.bag_loaded == BagLoadedState::Bagful && s.bag_filled == Some(
            BagFilledState::Filled,
        ),
        CyclePhase::Sealing => s.bag_loaded == BagLoadedState::Bagless && s.bag_filled == None::<
            BagFilledState,
        >,
        CyclePhase::Finished => cycle_outcome(s),
    }
}

/// The machine states a cycle can end in: the bag was lost while filling,
/// the bag could not be dropped, the bag was dropped and the machine reset,
/// or a held bag had no fill state to go on from.
pub open spec fn cycle_outcome(s: RyoStateView) -> bool {
    ||| (s.bag_loaded == BagLoadedState::Bagless && s.bag_filled == Some(BagFilledState::Filling))
    ||| (s.bag_loaded == BagLoadedState::Bagful && s.bag_filled == Some(BagFilledState::Filled))
    ||| (s.bag_loaded == BagLoadedState::Bagless && s.bag_filled == None::<BagFilledState>)
    ||| (s.bag_loaded == BagLoadedState::Bagful && s.bag_filled == None::<BagFilledState>)
}

/// A held bag is being filled, and every node before `i` has been emptied.
pub open spec fn filling_from(i: usize, s: RyoStateView) -> bool {
    &&& i < NUMBER_OF_NODES
    &&& s.bag_loaded == BagLoadedState::Bagful
    &&& s.bag_filled == Some(BagFilledState::Filling)
    &&& forall|j: int| 0 <= j < i ==> s.nodes[j] == NodeState::Ready
}

/// Model of a running cycle.
pub struct CycleView {
    pub phase: CyclePhase,
    pub state: RyoStateView,
}

/// One bagging cycle, driven by the events that the machine reports.
pub struct Cycle {
    phase: CyclePhase,
    state: RyoState,
}

impl View for Cycle {
    type V = CycleView;

    closed spec fn view(&self) -> CycleView {
        CycleView { phase: self.phase, state: self.state@ }
    }
}

impl Cycle {
    #[verifier::type_invariant]
    spec fn well_formed(self) -> bool {
        cycle_inv(self.phase, self.state@)
    }

    /// Begins a cycle from the machine state `state`.
    pub fn start(state: RyoState) -> (r: (Cycle, CycleAction))
        ensures
            ({
                let (p, s, a) = cycle_start(state@);
                &&& r.0@.phase == p
                &&& r.0@.state == s
                &&& r.1@ == a
            }),
            cycle_inv(r.0@.phase, r.0@.state),
    {
        proof {
            lemma_start_establishes_inv(state@);
        }
        match state.get_bag_loaded_state() {
            BagLoadedState::Bagless => {
                let ids = dispense_nodes(&state);
                (Cycle { phase: CyclePhase::LoadingBag, state }, CycleAction::LoadBag(ids))
            },
            BagLoadedState::Bagful => Self::enter_fill(state),
        }
    }

    fn enter_fill(state: RyoState) -> (r: (Cycle, CycleAction))
        requires
            state@.bag_loaded == BagLoadedState::Bagful,
        ensures
            ({
                let (p, s, a) = fill_entry(state@);
                &&& r.0@.phase == p
                &&& r.0@.state == s
                &&& r.1@ == a
            }),
    {
        let mut s = state;
        match state.get_bag_filled_state() {
            Some(BagFilledState::Filled) => (
                Cycle { phase: CyclePhase::DroppingBag, state: s },
                CycleAction::DropBag,
            ),
            None => (Cycle { phase: CyclePhase::Finished, state: s }, CycleAction::Finish),
            _ => {
                s.set_bag_filled_state(Some(BagFilledState::Filling));
                (Cycle { phase: CyclePhase::Inspecting(0), state: s }, CycleAction::InspectNode(0))
            },
        }
    }

    fn next_node(i: usize, state: RyoState) -> (r: (Cycle, CycleAction))
        requires
            filling_from(i, state@),
            state@.nodes[i as int] == NodeState::Ready,
        ensures
            ({
                let (p, s, a) = after_node(i, state@);
                &&& r.0@.phase == p
                &&& r.0@.state == s
                &&& r.1@ == a
            }),
    {
        if i + 1 < NUMBER_OF_NODES {
            (
                Cycle { phase: CyclePhase::Inspecting(i + 1), state },
                CycleAction::InspectNode(i + 1),
            )
        } else {
            let mut s = state;
            s.set_bag_filled_state(Some(BagFilledState::Filled));
            (Cycle { phase: CyclePhase::DroppingBag, state: s }, CycleAction::DropBag)
        }
    }

    /// Moves the cycle on by the event that the machine reported for the last action.
    pub fn advance(&mut self, event: CycleEvent) -> (action: CycleAction)
        requires
            expects(old(self)@.phase, event),
        ensures
            ({
                let (p, s, a) = cycle_next(old(self)@.phase, old(self)@.state, event);
                &&& final(self)@.phase == p
                &&& final(self)@.state == s
                &&& action@ == a
            }),
            cycle_inv(final(self)@.phase, final(self)@.state),
    {
        proof {
            use_type_invariant(&*self);
            lemma_step_preserves_inv(self.phase, self.state@, event);
        }
        let s = self.state;
        let (next, action) = match self.phase {
            CyclePhase::LoadingBag => {
                let mut loaded = s;
                loaded.set_bag_loaded_state(BagLoadedState::Bagful);
                loaded.set_all_node_states(NodeState::Dispensed);
                loaded.set_bag_filled_state(Some(BagFilledState::Filling));
                Self::enter_fill(loaded)
            },
            CyclePhase::Inspecting(i) => match event {
                CycleEvent::BagSensor(BagSensorState::Bagless) => {
                    let mut lost = s;
                    lost.set_bag_loaded_state(BagLoadedState::Bagless);
                    (Cycle { phase: CyclePhase::Finished, state: lost }, CycleAction::Finish)
                },
                _ => match s.get_node_state(i) {
                    NodeState::Dispensed => (
                        Cycle { phase: CyclePhase::Dumping(i), state: s },
                        CycleAction::DumpHatch(i),
                    ),
                    NodeState::Ready => Self::next_node(i, s),
                },
            },
            CyclePhase::Dumping(i) => {
                let mut dumped = s;
                dumped.set_node_state(i, NodeState::Ready);
                Self::next_node(i, dumped)
            },
            CyclePhase::DroppingBag => match event {
                CycleEvent::BagSensor(BagSensorState::Bagless) => {
                    let mut dropped = s;
                    dropped.set_bag_loaded_state(BagLoadedState::Bagless);
                    dropped.set_bag_filled_state(None);
                    (Cycle { phase: CyclePhase::Sealing, state: dropped }, CycleAction::SealAndReset)
                },
                _ => (Cycle { phase: CyclePhase::Finished, state: s }, CycleAction::Finish),
            },
            _ => (Cycle { phase: CyclePhase::Finished, state: s }, CycleAction::Finish),
        };
        *self = next;
        action
    }

    pub fn phase(&self) -> (p: CyclePhase)
        ensures
            p == self@.phase,
    {
        self.phase
    }

    pub fn state(&self) -> (s: RyoState)
        ensures
            s@ == self@.state,
    {
        self.state
    }

    pub fn is_finished(&self) -> (b: bool)
        ensures
            b <==> self@.phase == CyclePhase::Finished,
    {
        match self.phase {
            CyclePhase::Finished => true,
            _ => false,
        }
    }
}

/// Every cycle starts in a phase whose invariant holds.
pub proof fn lemma_start_establishes_inv(s: RyoStateView)
    requires
        s.nodes.len() == NUMBER_OF_NODES,
    ensures
        cycle_inv(cycle_start(s).0, cycle_start(s).1),
{
}

/// Every step of a cycle keeps the invariant of its phase.
pub proof fn lemma_step_preserves_inv(phase: CyclePhase, s: RyoStateView, event: CycleEvent)
    requires
        cycle_inv(phase, s),
        expects(phase, event),
    ensures
        cycle_inv(cycle_next(phase, s, event).0, cycle_next(phase, s, event).1),
{
}

/// How many more events a cycle in `phase` can take at most.
pub open spec fn cycle_rank(phase: CyclePhase) -> nat {
    match phase {
        CyclePhase::LoadingBag => (2 * NUMBER_OF_NODES + 3) as nat,
        CyclePhase::Inspecting(i) => (2 * (NUMBER_OF_NODES - i) + 2) as nat,
        CyclePhase::Dumping(i) => (2 * (NUMBER_OF_NODES - i) + 1) as nat,
        CyclePhase::DroppingBag => 2,
        CyclePhase::Sealing => 1,
        CyclePhase::Finished => 0,
    }
}

/// Every step of a cycle brings it strictly closer to its end.
pub proof fn lemma_step_makes_progress(phase: CyclePhase, s: RyoStateView, event: CycleEvent)
    requires
        cycle_inv(phase, s),
        expects(phase, event),
    ensures
        cycle_rank(cycle_next(phase, s, event).0) < cycle_rank(phase),
{
}

/// A cycle waits for an event in every phase but the finished one.
pub proof fn lemma_only_finished_cycle_is_idle(phase: CyclePhase)
    ensures
        phase == CyclePhase::Finished <==> !(exists|e: CycleEvent| expects(phase, e)),
{
    if phase != CyclePhase::Finished {
        assert(expects(phase, CycleEvent::Completed) || expects(
            phase,
            CycleEvent::BagSensor(BagSensorState::Bagful),
        ));
    }
}

/// The events `events`, reported one after the other from `phase` and `s`,
/// are each one that the cycle waits for at that point.
pub open spec fn accepts_run(phase: CyclePhase, s: RyoStateView, events: Seq<CycleEvent>) -> bool
    decreases events.len(),
{
    if events.len() == 0 {
        true
    } else {
        let (p, t, _a) = cycle_next(phase, s, events[0]);
        expects(phase, events[0]) && accepts_run(p, t, events.drop_first())
    }
}

/// A cycle ends: from any phase it takes no more events than its rank, and a
/// fresh start takes at most two per node and three more.
pub proof fn lemma_cycle_terminates(phase: CyclePhase, s: RyoStateView, events: Seq<CycleEvent>)
    requires
        cycle_inv(phase, s),
        accepts_run(phase, s, events),
    ensures
        events.len() <= cycle_rank(phase),
        cycle_rank(phase) <= 2 * NUMBER_OF_NODES + 3,
    decreases events.len(),
{
    if events.len() > 0 {
        let (p, t, _a) = cycle_next(phase, s, events[0]);
        lemma_step_preserves_inv(phase, s, events[0]);
        lemma_step_makes_progress(phase, s, events[0]);
        lemma_cycle_terminates(p, t, events.drop_first());
    }
}

/// When a cycle has gone through every node and moves on to drop the bag, the
/// bag is marked full and every hatch has been emptied.
pub proof fn lemma_filled_bag_leaves_nodes_ready(phase: CyclePhase, s: RyoStateView, event: CycleEvent)
    requires
        cycle_inv(phase, s),
        expects(phase, event),
        phase is Inspecting || phase is Dumping,
        cycle_next(phase, s, event).0 == CyclePhase::DroppingBag,
    ensures
        cycle_next(phase, s, event).1.bag_filled == Some(BagFilledState::Filled),
        forall|j: int|
            0 <= j < NUMBER_OF_NODES ==> cycle_next(phase, s, event).1.nodes[j] == NodeState::Ready,
{
}

/// A cycle empties only hatches that hold a dispensed portion, and an emptied
/// hatch is Ready afterwards.
pub proof fn lemma_dump_only_dispensed(phase: CyclePhase, s: RyoStateView, event: CycleEvent)
    requires
        cycle_inv(phase, s),
        expects(phase, event),
    ensures
        cycle_next(phase, s, event).2 matches CycleActionView::DumpHatch(i) ==> s.nodes[i as int]
            == NodeState::Dispensed && i < NUMBER_OF_NODES,
        phase matches CyclePhase::Dumping(i) ==> cycle_next(phase, s, event).1.nodes[i as int]
            == NodeState::Ready,
{
}

/// The nodes picked for dispensing are exactly the Ready nodes (none when the
/// bag is full), each once and lowest first.
pub proof fn lemma_dispense_targets_are_ready_nodes(s: RyoStateView)
    requires
        s.nodes.len() == NUMBER_OF_NODES,
    ensures
        forall|j: usize|
            #![trigger dispense_targets(s).contains(j)]
            dispense_targets(s).contains(j) <==> (j < NUMBER_OF_NODES && s.nodes[j as int]
                == NodeState::Ready && s.bag_filled != Some(BagFilledState::Filled)),
        forall|a: int, b: int|
            0 <= a < b < dispense_targets(s).len() ==> dispense_targets(s)[a]
                < dispense_targets(s)[b],
{
    if s.bag_filled != Some(BagFilledState::Filled) {
        lemma_ready_nodes_below(s.nodes, NUMBER_OF_NODES as nat);
    }
}

proof fn lemma_ready_nodes_below(nodes: Seq<NodeState>, n: nat)
    requires
        n <= nodes.len(),
        n <= NUMBER_OF_NODES,
    ensures
        forall|j: usize|
            #![trigger ready_nodes_below(nodes, n).contains(j)]
            ready_nodes_below(nodes, n).contains(j) <==> (j < n && nodes[j as int]
                == NodeState::Ready),
        forall|a: int, b: int|
            0 <= a < b < ready_nodes_below(nodes, n).len() ==> ready_nodes_below(nodes, n)[a]
                < ready_nodes_below(nodes, n)[b],
        forall|a: int|
            0 <= a < ready_nodes_below(nodes, n).len() ==> ready_nodes_below(nodes, n)[a] < n,
    decreases n,
{
    if n > 0 {
        let m = (n - 1) as nat;
        lemma_ready_nodes_below(nodes, m);
        let prev = ready_nodes_below(nodes, m);
        if nodes[m as int] == NodeState::Ready {
            let cur = prev.push(m as usize);
            assert forall|j: usize| #![trigger cur.contains(j)] cur.contains(j) <==> (j < n
                && nodes[j as int] == NodeState::Ready) by {
                assert(cur[prev.len() as int] == m as usize);
                if cur.contains(j) {
                    let k = choose|k: int| 0 <= k < cur.len() && cur[k] == j;
                    if k < prev.len() {
                        assert(prev[k] == j);
                        assert(prev.contains(j));
                    } else {
                        assert(j == m);
                    }
                }
                if j < n && nodes[j as int] == NodeState::Ready {
                    if j == m {
                        assert(cur.contains(j));
                    } else {
                        assert(prev.contains(j));
                        let k = choose|k: int| 0 <= k < prev.len() && prev[k] == j;
                        assert(cur[k] == j);
                        assert(cur.contains(j));
                    }
                }
            }
            assert forall|a: int, b: int| 0 <= a < b < cur.len() implies cur[a] < cur[b] by {
                if b == prev.len() {
                    assert(prev[a] < m);
                } else {
                    assert(prev[a] < prev[b]);
                }
            }
        }
    }
}

/// A held bag always has a fill state to go on from.
pub open spec fn held_bag_has_fill_state(s: RyoStateView) -> bool {
    s.bag_loaded == BagLoadedState::Bagful ==> s.bag_filled is Some
}

/// Every step of a cycle keeps a held bag's fill state known.
pub proof fn lemma_step_keeps_fill_state(phase: CyclePhase, s: RyoStateView, event: CycleEvent)
    requires
        cycle_inv(phase, s),
        expects(phase, event),
        held_bag_has_fill_state(s),
    ensures
        held_bag_has_fill_state(cycle_next(phase, s, event).1),
{
}

/// A cycle started where a held bag has a fill state (as in the fresh state,
/// and, by `lemma_step_keeps_fill_state`, in every state that cycling from it
/// reaches) has work to do: cycling never stalls in cycles that end at once.
pub proof fn lemma_cycle_start_has_work(s: RyoStateView)
    requires
        held_bag_has_fill_state(s),
    ensures
        held_bag_has_fill_state(cycle_start(s).1),
        cycle_start(s).0 != CyclePhase::Finished,
{
}

/// A Bagless reading at any node being inspected ends the cycle at once,
/// whatever that node's hatch holds: the bag is marked Bagless and nothing
/// else in the machine state changes.
pub proof fn lemma_lost_bag_ends_cycle(i: usize, s: RyoStateView)
    ensures
        cycle_next(CyclePhase::Inspecting(i), s, CycleEvent::BagSensor(BagSensorState::Bagless))
            == (
            CyclePhase::Finished,
            RyoStateView {
                nodes: s.nodes,
                bag_loaded: BagLoadedState::Bagless,
                bag_filled: s.bag_filled,
            },
            CycleActionView::Finish,
        ),
{
}

/// A cycle that starts with a held bag that is empty or partly filled first
/// inspects node 0, marks the bag Filling, and leaves the nodes as they are.
pub proof fn lemma_unfilled_bag_is_filled_from_node_0(s: RyoStateView)
    requires
        s.bag_loaded == BagLoadedState::Bagful,
        s.bag_filled == Some(BagFilledState::Empty) || s.bag_filled == Some(
            BagFilledState::Filling,
        ),
    ensures
        cycle_start(s) == (
            CyclePhase::Inspecting(0),
            RyoStateView {
                nodes: s.nodes,
                bag_loaded: BagLoadedState::Bagful,
                bag_filled: Some(BagFilledState::Filling),
            },
            CycleActionView::InspectNode(0),
        ),
{
}

/// A bag is marked Filled only once the last node has been handled: a cycle
/// never starts by marking a bag Filled, and a step that marks it Filled is
/// one that leaves the last node, and asks to drop the bag.
pub proof fn lemma_bag_marked_full_only_after_last_node(
    phase: CyclePhase,
    s: RyoStateView,
    event: CycleEvent,
)
    requires
        cycle_inv(phase, s),
        expects(phase, event),
    ensures
        cycle_start(s).1.bag_filled == Some(BagFilledState::Filled) ==> s.bag_filled == Some(
            BagFilledState::Filled,
        ),
        (s.bag_filled != Some(BagFilledState::Filled) && cycle_next(phase, s, event).1.bag_filled
            == Some(BagFilledState::Filled)) ==> (phase == CyclePhase::Inspecting(
            (NUMBER_OF_NODES - 1) as usize,
        ) || phase == CyclePhase::Dumping((NUMBER_OF_NODES - 1) as usize)) && cycle_next(
            phase,
            s,
            event,
        ).2 == CycleActionView::DropBag,
        cycle_next(phase, s, event).2 == CycleActionView::DropBag && (phase is Inspecting
            || phase is Dumping) ==> phase == CyclePhase::Inspecting(
            (NUMBER_OF_NODES - 1) as usize,
        ) || phase == CyclePhase::Dumping((NUMBER_OF_NODES - 1) as usize),
{
}

/// A cycle that starts without a bag loads one, keeps the machine state as it
/// is, and dispenses into exactly the nodes whose hatch is Ready (none when
/// the bag is marked Filled), each once and lowest first.
pub proof fn lemma_bag_load_dispenses_only_ready_nodes(s: RyoStateView)
    requires
        s.nodes.len() == NUMBER_OF_NODES,
        s.bag_loaded == BagLoadedState::Bagless,
    ensures
        cycle_start(s).0 == CyclePhase::LoadingBag,
        cycle_start(s).1 == s,
        cycle_start(s).2 is LoadBag,
        forall|j: usize|
            #![trigger cycle_start(s).2->LoadBag_0.contains(j)]
            cycle_start(s).2->LoadBag_0.contains(j) <==> (j < NUMBER_OF_NODES && s.nodes[j as int]
                == NodeState::Ready && s.bag_filled != Some(BagFilledState::Filled)),
        forall|a: int, b: int|
            0 <= a < b < cycle_start(s).2->LoadBag_0.len() ==> cycle_start(s).2->LoadBag_0[a]
                < cycle_start(s).2->LoadBag_0[b],
{
    lemma_dispense_targets_are_ready_nodes(s);
}

/// Once a bag is loaded, every node holds a dispensed portion whatever it held
/// before, the bag is Bagful and Filling, and filling starts at node 0.
pub proof fn lemma_loaded_bag_has_every_node_dispensed(s: RyoStateView)
    requires
        s.nodes.len() == NUMBER_OF_NODES,
    ensures
        ({
            let (p, t, a) = cycle_next(CyclePhase::LoadingBag, s, CycleEvent::Completed);
            &&& p == CyclePhase::Inspecting(0)
            &&& a == CycleActionView::InspectNode(0)
            &&& t.bag_loaded == BagLoadedState::Bagful
            &&& t.bag_filled == Some(BagFilledState::Filling)
            &&& t.nodes.len() == NUMBER_OF_NODES
            &&& forall|j: int| 0 <= j < NUMBER_OF_NODES ==> t.nodes[j] == NodeState::Dispensed
        }),
{
}

/// While filling, a Bagful reading at a node before the last one is followed
/// by emptying that node's hatch when it holds a portion, and otherwise by
/// inspecting the next node; the machine state is unchanged.
pub proof fn lemma_bag_present_moves_to_next_node(i: usize, s: RyoStateView)
    requires
        i + 1 < NUMBER_OF_NODES,
        s.nodes.len() == NUMBER_OF_NODES,
    ensures
        s.nodes[i as int] == NodeState::Dispensed ==> cycle_next(
            CyclePhase::Inspecting(i),
            s,
            CycleEvent::BagSensor(BagSensorState::Bagful),
        ) == (CyclePhase::Dumping(i), s, CycleActionView::DumpHatch(i)),
        s.nodes[i as int] == NodeState::Ready ==> cycle_next(
            CyclePhase::Inspecting(i),
            s,
            CycleEvent::BagSensor(BagSensorState::Bagful),
        ) == (
            CyclePhase::Inspecting((i + 1) as usize),
            s,
            CycleActionView::InspectNode((i + 1) as usize),
        ),
        cycle_next(CyclePhase::Dumping(i), s, CycleEvent::Completed) == (
            CyclePhase::Inspecting((i + 1) as usize),
            RyoStateView {
                nodes: s.nodes.update(i as int, NodeState::Ready),
                bag_loaded: s.bag_loaded,
                bag_filled: s.bag_filled,
            },
            CycleActionView::InspectNode((i + 1) as usize),
        ),
{
}

/// At the last node with the bag present, a hatch holding a portion is
/// emptied first; once the last node has been handled the bag is marked
/// Filled and dropped, with the nodes as the last step left them.
pub proof fn lemma_last_node_leads_to_drop(s: RyoStateView)
    requires
        s.nodes.len() == NUMBER_OF_NODES,
    ensures
        ({
            let last = (NUMBER_OF_NODES - 1) as usize;
            &&& s.nodes[last as int] == NodeState::Dispensed ==> cycle_next(
                CyclePhase::Inspecting(last),
                s,
                CycleEvent::BagSensor(BagSensorState::Bagful),
            ) == (CyclePhase::Dumping(last), s, CycleActionView::DumpHatch(last))
            &&& s.nodes[last as int] == NodeState::Ready ==> cycle_next(
                CyclePhase::Inspecting(last),
                s,
                CycleEvent::BagSensor(BagSensorState::Bagful),
            ) == (
                CyclePhase::DroppingBag,
                RyoStateView {
                    nodes: s.nodes,
                    bag_loaded: s.bag_loaded,
                    bag_filled: Some(BagFilledState::Filled),
                },
                CycleActionView::DropBag,
            )
            &&& cycle_next(CyclePhase::Dumping(last), s, CycleEvent::Completed) == (
                CyclePhase::DroppingBag,
                RyoStateView {
                    nodes: s.nodes.update(last as int, NodeState::Ready),
                    bag_loaded: s.bag_loaded,
                    bag_filled: Some(BagFilledState::Filled),
                },
                CycleActionView::DropBag,
            )
        }),
{
}

/// Dropping the bag: if the sensor no longer sees it, the machine is marked
/// bagless with no fill state and the bag is sealed while the machine resets;
/// if the sensor still sees it, the cycle ends with the state unchanged. The
/// reset ends the cycle with the state unchanged.
pub proof fn lemma_drop_outcomes(s: RyoStateView)
    ensures
        cycle_next(CyclePhase::DroppingBag, s, CycleEvent::BagSensor(BagSensorState::Bagless))
            == (
            CyclePhase::Sealing,
            RyoStateView {
                nodes: s.nodes,
                bag_loaded: BagLoadedState::Bagless,
                bag_filled: None,
            },
            CycleActionView::SealAndReset,
        ),
        cycle_next(CyclePhase::DroppingBag, s, CycleEvent::BagSensor(BagSensorState::Bagful))
            == (CyclePhase::Finished, s, CycleActionView::Finish),
        cycle_next(CyclePhase::Sealing, s, CycleEvent::Completed) == (
            CyclePhase::Finished,
            s,
            CycleActionView::Finish,
        ),
{
}

/// A cycle that starts with a full bag drops it at once; one that starts with
/// a held bag whose fill state is unknown ends at once; neither changes the
/// machine state.
pub proof fn lemma_full_or_unknown_bag_start(s: RyoStateView)
    requires
        s.bag_loaded == BagLoadedState::Bagful,
    ensures
        s.bag_filled == Some(BagFilledState::Filled) ==> cycle_start(s) == (
            CyclePhase::DroppingBag,
            s,
            CycleActionView::DropBag,
        ),
        s.bag_filled == None::<BagFilledState> ==> cycle_start(s) == (
            CyclePhase::Finished,
            s,
            CycleActionView::Finish,
        ),
{
}

} // verus!
