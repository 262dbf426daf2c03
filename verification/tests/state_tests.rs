use ryo_control::config::NUMBER_OF_NODES;
use ryo_control::state::{BagFilledState, BagLoadedState, NodeState, RyoState};

#[test]
fn fresh_state_is_empty_and_ready() {
    let s = RyoState::fresh();
    for id in 0..NUMBER_OF_NODES {
        assert_eq!(s.get_node_state(id), NodeState::Ready);
    }
    assert_eq!(s.get_bag_loaded_state(), BagLoadedState::Bagless);
    assert_eq!(s.get_bag_filled_state(), None);
}

#[test]
fn set_node_state_changes_only_that_node() {
    let mut s = RyoState::fresh();
    s.set_node_state(2, NodeState::Dispensed);
    assert_eq!(s.get_node_state(2), NodeState::Dispensed);
    assert_eq!(s.get_node_state(0), NodeState::Ready);
    assert_eq!(s.get_node_state(1), NodeState::Ready);
    assert_eq!(s.get_node_state(3), NodeState::Ready);
    assert_eq!(s.get_bag_loaded_state(), BagLoadedState::Bagless);
}

#[test]
fn set_all_node_states_sets_every_node() {
    let mut s = RyoState::fresh();
    s.set_all_node_states(NodeState::Dispensed);
    for id in 0..NUMBER_OF_NODES {
        assert_eq!(s.get_node_state(id), NodeState::Dispensed);
    }
}

#[test]
fn bag_states_read_back_what_was_written() {
    let mut s = RyoState::fresh();
    s.set_bag_loaded_state(BagLoadedState::Bagful);
    s.set_bag_filled_state(Some(BagFilledState::Filling));
    assert_eq!(s.get_bag_loaded_state(), BagLoadedState::Bagful);
    assert_eq!(s.get_bag_filled_state(), Some(BagFilledState::Filling));
    s.set_bag_filled_state(None);
    assert_eq!(s.get_bag_filled_state(), None);
    assert_eq!(s.get_node_state(0), NodeState::Ready);
}
