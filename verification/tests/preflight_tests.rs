use ryo_control::preflight::{Preflight, PreflightAction, PreflightEvent, PreflightPhase};
use ryo_control::sensors::{gantry_is_ready, gantry_must_finish_move, GantryStatus};

#[test]
fn preflight_runs_the_whole_sequence() {
    let (mut p, a) = Preflight::start();
    assert_eq!(a, PreflightAction::EnableDrives);
    assert_eq!(p.advance(PreflightEvent::Completed), PreflightAction::PollGantry);
    assert_eq!(
        p.advance(PreflightEvent::Gantry(GantryStatus::Other)),
        PreflightAction::PollGantry
    );
    assert_eq!(
        p.advance(PreflightEvent::Gantry(GantryStatus::Moving)),
        PreflightAction::PollGantry
    );
    assert_eq!(p.phase(), PreflightPhase::AwaitingGantry);
    assert_eq!(
        p.advance(PreflightEvent::Gantry(GantryStatus::Ready)),
        PreflightAction::ConfigureGantry
    );
    let mut expected = vec![];
    for i in 0..4 {
        expected.push(PreflightAction::ConfigureNodeMotor(i));
    }
    expected.push(PreflightAction::Settle);
    expected.push(PreflightAction::CloseGripper);
    expected.push(PreflightAction::RetractSealer);
    expected.push(PreflightAction::OpenTrapDoor);
    for i in 0..4 {
        expected.push(PreflightAction::CloseHatch(i));
    }
    expected.push(PreflightAction::DispenseBagAndHomeGantry);
    expected.push(PreflightAction::Finish);
    for e in expected {
        assert!(!p.is_done());
        assert_eq!(p.advance(PreflightEvent::Completed), e);
    }
    assert!(p.is_done());
}

#[test]
fn gantry_status_decisions() {
    assert!(gantry_is_ready(GantryStatus::Ready));
    assert!(!gantry_is_ready(GantryStatus::Moving));
    assert!(!gantry_is_ready(GantryStatus::Other));
    assert!(gantry_must_finish_move(GantryStatus::Moving));
    assert!(!gantry_must_finish_move(GantryStatus::Ready));
    assert!(!gantry_must_finish_move(GantryStatus::Other));
}
