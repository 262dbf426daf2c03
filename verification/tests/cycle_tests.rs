use ryo_control::cycle::{dispense_nodes, Cycle, CycleAction, CycleEvent, CyclePhase};
use ryo_control::sensors::BagSensorState;
use ryo_control::state::{BagFilledState, BagLoadedState, NodeState, RyoState};

fn bagful() -> CycleEvent {
    CycleEvent::BagSensor(BagSensorState::Bagful)
}

fn bagless() -> CycleEvent {
    CycleEvent::BagSensor(BagSensorState::Bagless)
}

#[test]
fn dispense_nodes_lists_ready_nodes_in_order() {
    let mut s = RyoState::fresh();
    s.set_node_state(1, NodeState::Dispensed);
    assert_eq!(dispense_nodes(&s), vec![0, 2, 3]);
}

#[test]
fn dispense_nodes_is_empty_for_a_full_bag() {
    let mut s = RyoState::fresh();
    s.set_bag_filled_state(Some(BagFilledState::Filled));
    assert_eq!(dispense_nodes(&s), Vec::<usize>::new());
}

#[test]
fn full_cycle_from_fresh_state() {
    let (mut c, a) = Cycle::start(RyoState::fresh());
    assert_eq!(a, CycleAction::LoadBag(vec![0, 1, 2, 3]));
    assert_eq!(c.phase(), CyclePhase::LoadingBag);
    let mut a = c.advance(CycleEvent::Completed);
    let st = c.state();
    assert_eq!(st.get_bag_loaded_state(), BagLoadedState::Bagful);
    assert_eq!(st.get_bag_filled_state(), Some(BagFilledState::Filling));
    for node in 0..4 {
        assert_eq!(a, CycleAction::InspectNode(node));
        a = c.advance(bagful());
        assert_eq!(a, CycleAction::DumpHatch(node));
        a = c.advance(CycleEvent::Completed);
        assert_eq!(c.state().get_node_state(node), NodeState::Ready);
    }
    assert_eq!(a, CycleAction::DropBag);
    assert_eq!(c.state().get_bag_filled_state(), Some(BagFilledState::Filled));
    a = c.advance(bagless());
    assert_eq!(a, CycleAction::SealAndReset);
    a = c.advance(CycleEvent::Completed);
    assert_eq!(a, CycleAction::Finish);
    assert!(c.is_finished());
    let st = c.state();
    assert_eq!(st.get_bag_loaded_state(), BagLoadedState::Bagless);
    assert_eq!(st.get_bag_filled_state(), None);
    for node in 0..4 {
        assert_eq!(st.get_node_state(node), NodeState::Ready);
    }
}

#[test]
fn lost_bag_ends_the_cycle() {
    let (mut c, _) = Cycle::start(RyoState::fresh());
    let _ = c.advance(CycleEvent::Completed);
    assert_eq!(c.advance(bagful()), CycleAction::DumpHatch(0));
    assert_eq!(c.advance(CycleEvent::Completed), CycleAction::InspectNode(1));
    assert_eq!(c.advance(bagless()), CycleAction::Finish);
    assert!(c.is_finished());
    let st = c.state();
    assert_eq!(st.get_bag_loaded_state(), BagLoadedState::Bagless);
    assert_eq!(st.get_bag_filled_state(), Some(BagFilledState::Filling));
    assert_eq!(st.get_node_state(0), NodeState::Ready);
    assert_eq!(st.get_node_state(1), NodeState::Dispensed);
}

#[test]
fn failed_drop_keeps_the_full_bag() {
    let mut s = RyoState::fresh();
    s.set_bag_loaded_state(BagLoadedState::Bagful);
    s.set_bag_filled_state(Some(BagFilledState::Filled));
    let (mut c, a) = Cycle::start(s);
    assert_eq!(a, CycleAction::DropBag);
    assert_eq!(c.advance(bagful()), CycleAction::Finish);
    let st = c.state();
    assert_eq!(st.get_bag_loaded_state(), BagLoadedState::Bagful);
    assert_eq!(st.get_bag_filled_state(), Some(BagFilledState::Filled));
}

#[test]
fn held_bag_skips_ready_nodes_while_filling() {
    let mut s = RyoState::fresh();
    s.set_bag_loaded_state(BagLoadedState::Bagful);
    s.set_bag_filled_state(Some(BagFilledState::Empty));
    s.set_node_state(2, NodeState::Dispensed);
    let (mut c, a) = Cycle::start(s);
    assert_eq!(a, CycleAction::InspectNode(0));
    assert_eq!(c.state().get_bag_filled_state(), Some(BagFilledState::Filling));
    assert_eq!(c.advance(bagful()), CycleAction::InspectNode(1));
    assert_eq!(c.advance(bagful()), CycleAction::InspectNode(2));
    assert_eq!(c.advance(bagful()), CycleAction::DumpHatch(2));
    assert_eq!(c.advance(CycleEvent::Completed), CycleAction::InspectNode(3));
    assert_eq!(c.advance(bagful()), CycleAction::DropBag);
    assert_eq!(c.phase(), CyclePhase::DroppingBag);
}

#[test]
fn held_bag_without_fill_state_ends_at_once() {
    let mut s = RyoState::fresh();
    s.set_bag_loaded_state(BagLoadedState::Bagful);
    let (c, a) = Cycle::start(s);
    assert_eq!(a, CycleAction::Finish);
    assert!(c.is_finished());
}

#[test]
fn longest_cycle_from_fresh_state_takes_eleven_events() {
    let (mut c, _) = Cycle::start(RyoState::fresh());
    let mut events = 0;
    let mut a = c.advance(CycleEvent::Completed);
    events += 1;
    while !c.is_finished() {
        let e = match a {
            CycleAction::InspectNode(_) => bagful(),
            CycleAction::DropBag => bagless(),
            _ => CycleEvent::Completed,
        };
        a = c.advance(e);
        events += 1;
    }
    assert_eq!(events, 11);
}
