use vstd::prelude::*;

verus! {

/// What the bag-detect sensor under the hatches reports.
#[derive(Clone, Copy, Debug, PartialEq, Eq, Structural)]
pub enum BagSensorState {
    Bagful,
    Bagless,
}

/// The part of a drive's reported status that the machine logic acts on:
/// ready for a command, still executing a move, or any other status
/// (disabled, faulted, homing, ...).
#[derive(Clone, Copy, Debug, PartialEq, Eq, Structural)]
pub enum GantryStatus {
    Ready,
    Moving,
    Other,
}

/// Whether the gantry drive can take a new command.
pub fn gantry_is_ready(status: GantryStatus) -> (r: bool)
    ensures
        r <==> status == GantryStatus::Ready,
{
    match status {
        GantryStatus::Ready => true,
        _ => false,
    }
}

/// Whether a move in progress must be waited for before the gantry is sent home.
pub fn gantry_must_finish_move(status: GantryStatus) -> (r: bool)
    ensures
        r <==> status == GantryStatus::Moving,
{
    match status {
        GantryStatus::Moving => true,
        _ => false,
    }
}

} // verus!
