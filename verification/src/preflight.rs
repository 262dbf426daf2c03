use vstd::prelude::*;
use crate::config::NUMBER_OF_NODES;
use crate::sensors::GantryStatus;

verus! {

/// Where the preparation of the machine before the first cycle stands.
#[derive(Clone, Copy, Debug, PartialEq, Eq, Structural)]
pub enum PreflightPhase {
    /// Every drive is being enabled and its faults cleared.
    EnablingDrives,
    /// Waiting for the gantry drive to report that it is ready.
    AwaitingGantry,
    /// The gantry's acceleration and velocities are being set.
    ConfiguringGantry,
    /// The motor of the node is being given its velocity and acceleration.
    ConfiguringNodeMotor(usize),
    /// The new motion settings are settling in.
    Settling,
    /// The bag gripper is closing.
    ClosingGripper,
    /// The sealer is retracting.
    RetractingSealer,
    /// The trap door is opening.
    OpeningTrapDoor,
    /// The node's hatch is closing.
    ClosingHatch(usize),
    /// A bag is dispensed while the gantry is sent home.
    DispensingBagAndHoming,
    /// The machine is ready for its first cycle.
    Done,
}

/// What the machine must do next to prepare for cycling.
#[derive(Clone, Copy, Debug, PartialEq, Eq, Structural)]
pub enum PreflightAction {
    /// Enable every drive and clear its faults; report `Completed`.
    EnableDrives,
    /// Wait a moment, then report the gantry drive's status.
    PollGantry,
    /// Set the gantry's acceleration and velocities; report `Completed`.
    ConfigureGantry,
    /// Set the node motor's velocity and acceleration; report `Completed`.
    ConfigureNodeMotor(usize),
    /// Let the settings settle; report `Completed`.
    Settle,
    /// Close the bag gripper; report `Completed`.
    CloseGripper,
    /// Retract the sealer; report `Completed`.
    RetractSealer,
    /// Open the trap door; report `Completed`.
    OpenTrapDoor,
    /// Close the node's hatch; report `Completed`.
    CloseHatch(usize),
    /// Dispense a bag and, at the same time, enable the gantry, let it finish
    /// any move it is in, and send it home; report `Completed` when both are done.
    DispenseBagAndHomeGantry,
    /// Nothing more: the machine is ready.
    Finish,
}

/// What the machine reports after a preflight action.
#[derive(Clone, Copy, Debug, PartialEq, Eq, Structural)]
pub enum PreflightEvent {
    Completed,
    Gantry(GantryStatus),
}

/// The phase preparation starts in, and its first action.
pub open spec fn preflight_start() -> (PreflightPhase, PreflightAction) {
    (PreflightPhase::EnablingDrives, PreflightAction::EnableDrives)
}

/// The event that preparation waits for in `phase`; none once it is done.
pub open spec fn preflight_expects(phase: PreflightPhase, event: PreflightEvent) -> bool {
    match phase {
        PreflightPhase::AwaitingGantry => event is Gantry,
        PreflightPhase::Done => false,
        _ => event == PreflightEvent::Completed,
    }
}

/// What holds of every phase that preparation can be in.
pub open spec fn preflight_inv(phase: PreflightPhase) -> bool {
    match phase {
        PreflightPhase::ConfiguringNodeMotor(i) => i < NUMBER_OF_NODES,
        PreflightPhase::ClosingHatch(i) => i < NUMBER_OF_NODES,
        _ => true,
    }
}

/// One step of preparation, from the event the machine reports.
pub open spec fn preflight_next(phase: PreflightPhase, event: PreflightEvent) -> (
    PreflightPhase,
    PreflightAction,
)
    recommends
        preflight_expects(phase, event),
{
    match phase {
        PreflightPhase::EnablingDrives => (PreflightPhase::AwaitingGantry, PreflightAction::PollGantry),
        PreflightPhase::AwaitingGantry => if event == PreflightEvent::Gantry(GantryStatus::Ready) {
            (PreflightPhase::ConfiguringGantry, PreflightAction::ConfigureGantry)
        } else {
            (PreflightPhase::AwaitingGantry, PreflightAction::PollGantry)
        },
        PreflightPhase::ConfiguringGantry => (
            PreflightPhase::ConfiguringNodeMotor(0),
            PreflightAction::ConfigureNodeMotor(0),
        ),
        PreflightPhase::ConfiguringNodeMotor(i) => if i + 1 < NUMBER_OF_NODES {
            (
                PreflightPhase::ConfiguringNodeMotor((i + 1) as usize),
                PreflightAction::ConfigureNodeMotor((i + 1) as usize),
            )
        } else {
            (PreflightPhase::Settling, PreflightAction::Settle)
        },
        PreflightPhase::Settling => (PreflightPhase::ClosingGripper, PreflightAction::CloseGripper),
        PreflightPhase::ClosingGripper => (
            PreflightPhase::RetractingSealer,
            PreflightAction::RetractSealer,
        ),
        PreflightPhase::RetractingSealer => (
            PreflightPhase::OpeningTrapDoor,
            PreflightAction::OpenTrapDoor,
        ),
        PreflightPhase::OpeningTrapDoor => (
            PreflightPhase::ClosingHatch(0),
            PreflightAction::CloseHatch(0),
        ),
        PreflightPhase::ClosingHatch(i) => if i + 1 < NUMBER_OF_NODES {
            (
                PreflightPhase::ClosingHatch((i + 1) as usize),
                PreflightAction::CloseHatch((i + 1) as usize),
            )
        } else {
            (PreflightPhase::DispensingBagAndHoming, PreflightAction::DispenseBagAndHomeGantry)
        },
        PreflightPhase::DispensingBagAndHoming | PreflightPhase::Done => (
            PreflightPhase::Done,
            PreflightAction::Finish,
        ),
    }
}

/// How many events that are not reports of an unready gantry preparation can
/// still take in `phase`.
pub open spec fn preflight_rank(phase: PreflightPhase) -> nat {
    match phase {
        PreflightPhase::EnablingDrives => (2 * NUMBER_OF_NODES + 8) as nat,
        PreflightPhase::AwaitingGantry => (2 * NUMBER_OF_NODES + 7) as nat,
        PreflightPhase::ConfiguringGantry => (2 * NUMBER_OF_NODES + 6) as nat,
        PreflightPhase::ConfiguringNodeMotor(i) => (2 * NUMBER_OF_NODES + 5 - i) as nat,
        PreflightPhase::Settling => (NUMBER_OF_NODES + 5) as nat,
        PreflightPhase::ClosingGripper => (NUMBER_OF_NODES + 4) as nat,
        PreflightPhase::RetractingSealer => (NUMBER_OF_NODES + 3) as nat,
        PreflightPhase::OpeningTrapDoor => (NUMBER_OF_NODES + 2) as nat,
        PreflightPhase::ClosingHatch(i) => (NUMBER_OF_NODES + 1 - i) as nat,
        PreflightPhase::DispensingBagAndHoming => 1,
        PreflightPhase::Done => 0,
    }
}

/// Preparation of the machine before cycling, driven by the events that the
/// machine reports.
pub struct Preflight {
    phase: PreflightPhase,
}

impl View for Preflight {
    type V = PreflightPhase;

    closed spec fn view(&self) -> PreflightPhase {
        self.phase
    }
}

impl Preflight {
    #[verifier::type_invariant]
    spec fn well_formed(self) -> bool {
        preflight_inv(self.phase)
    }

    /// Begins preparation.
    pub fn start() -> (r: (Preflight, PreflightAction))
        ensures
            (r.0@, r.1) == preflight_start(),
    {
        (Preflight { phase: PreflightPhase::EnablingDrives }, PreflightAction::EnableDrives)
    }

    /// Moves preparation on by the event that the machine reported for the last action.
    pub fn advance(&mut self, event: PreflightEvent) -> (action: PreflightAction)
        requires
            preflight_expects(old(self)@, event),
        ensures
            (final(self)@, action) == preflight_next(old(self)@, event),
            preflight_inv(final(self)@),
    {
        proof {
            use_type_invariant(&*self);
        }
        let (phase, action) = match self.phase {
            PreflightPhase::EnablingDrives => (
                PreflightPhase::AwaitingGantry,
                PreflightAction::PollGantry,
            ),
            PreflightPhase::AwaitingGantry => match event {
                PreflightEvent::Gantry(GantryStatus::Ready) => (
                    PreflightPhase::ConfiguringGantry,
                    PreflightAction::ConfigureGantry,
                ),
                _ => (PreflightPhase::AwaitingGantry, PreflightAction::PollGantry),
            },
            PreflightPhase::ConfiguringGantry => (
                PreflightPhase::ConfiguringNodeMotor(0),
                PreflightAction::ConfigureNodeMotor(0),
            ),
            PreflightPhase::ConfiguringNodeMotor(i) => if i + 1 < NUMBER_OF_NODES {
                (
                    PreflightPhase::ConfiguringNodeMotor(i + 1),
                    PreflightAction::ConfigureNodeMotor(i + 1),
                )
            } else {
                (PreflightPhase::Settling, PreflightAction::Settle)
            },
            PreflightPhase::Settling => (
                PreflightPhase::ClosingGripper,
                PreflightAction::CloseGripper,
            ),
            PreflightPhase::ClosingGripper => (
                PreflightPhase::RetractingSealer,
                PreflightAction::RetractSealer,
            ),
            PreflightPhase::RetractingSealer => (
                PreflightPhase::OpeningTrapDoor,
                PreflightAction::OpenTrapDoor,
            ),
            PreflightPhase::OpeningTrapDoor => (
                PreflightPhase::ClosingHatch(0),
                PreflightAction::CloseHatch(0),
            ),
            PreflightPhase::ClosingHatch(i) => if i + 1 < NUMBER_OF_NODES {
                (PreflightPhase::ClosingHatch(i + 1), PreflightAction::CloseHatch(i + 1))
            } else {
                (PreflightPhase::DispensingBagAndHoming, PreflightAction::DispenseBagAndHomeGantry)
            },
            _ => (PreflightPhase::Done, PreflightAction::Finish),
        };
        *self = Preflight { phase };
        action
    }

    pub fn phase(&self) -> (p: PreflightPhase)
        ensures
            p == self@,
    {
        self.phase
    }

    pub fn is_done(&self) -> (b: bool)
        ensures
            b <==> self@ == PreflightPhase::Done,
    {
        match self.phase {
            PreflightPhase::Done => true,
            _ => false,
        }
    }
}

/// Every step of preparation either moves it strictly closer to its end, or
/// polls an unready gantry again and stays where it was.
pub proof fn lemma_preflight_progress(phase: PreflightPhase, event: PreflightEvent)
    requires
        preflight_inv(phase),
        preflight_expects(phase, event),
    ensures
        preflight_inv(preflight_next(phase, event).0),
        (phase == PreflightPhase::AwaitingGantry && event != PreflightEvent::Gantry(
            GantryStatus::Ready,
        )) ==> preflight_next(phase, event) == (phase, PreflightAction::PollGantry),
        !(phase == PreflightPhase::AwaitingGantry && event != PreflightEvent::Gantry(
            GantryStatus::Ready,
        )) ==> preflight_rank(preflight_next(phase, event).0) < preflight_rank(phase),
{
}

/// The gantry and node motors are configured only once the gantry has
/// reported that it is ready.
pub proof fn lemma_configuration_follows_ready_gantry(phase: PreflightPhase, event: PreflightEvent)
    requires
        preflight_expects(phase, event),
        preflight_next(phase, event).0 == PreflightPhase::ConfiguringGantry,
    ensures
        phase == PreflightPhase::AwaitingGantry,
        event == PreflightEvent::Gantry(GantryStatus::Ready),
{
}

/// The events `events`, reported one after the other from `phase`, are each
/// one that preparation waits for at that point.
pub open spec fn preflight_accepts_run(phase: PreflightPhase, events: Seq<PreflightEvent>) -> bool
    decreases events.len(),
{
    if events.len() == 0 {
        true
    } else {
        preflight_expects(phase, events[0]) && preflight_accepts_run(
            preflight_next(phase, events[0]).0,
            events.drop_first(),
        )
    }
}

/// Once the gantry has reported ready, preparation ends: a run in which every
/// gantry report is Ready takes no more events than the rank of its phase.
pub proof fn lemma_preflight_terminates(phase: PreflightPhase, events: Seq<PreflightEvent>)
    requires
        preflight_inv(phase),
        preflight_accepts_run(phase, events),
        forall|k: int|
            0 <= k < events.len() ==> (#[trigger] events[k] is Gantry ==> events[k]
                == PreflightEvent::Gantry(GantryStatus::Ready)),
    ensures
        events.len() <= preflight_rank(phase),
    decreases events.len(),
{
    if events.len() > 0 {
        lemma_preflight_progress(phase, events[0]);
        let rest = events.drop_first();
        assert forall|k: int|
            0 <= k < rest.len() && #[trigger] rest[k] is Gantry implies rest[k]
            == PreflightEvent::Gantry(GantryStatus::Ready) by {
            assert(rest[k] == events[k + 1]);
        }
        assert(events[0] is Gantry ==> events[0] == PreflightEvent::Gantry(GantryStatus::Ready));
        lemma_preflight_terminates(preflight_next(phase, events[0]).0, rest);
    }
}

/// Preparation polls the gantry after enabling the drives and until it
/// reports Ready; then it configures the gantry, each node motor in turn,
/// settles, closes the gripper, retracts the sealer, opens the trap door,
/// closes each hatch in turn, dispenses a bag while homing, and is done.
pub proof fn lemma_preflight_order(i: usize, status: GantryStatus)
    requires
        i < NUMBER_OF_NODES,
    ensures
        preflight_start() == (PreflightPhase::EnablingDrives, PreflightAction::EnableDrives),
        preflight_next(PreflightPhase::EnablingDrives, PreflightEvent::Completed) == (
            PreflightPhase::AwaitingGantry,
            PreflightAction::PollGantry,
        ),
        status != GantryStatus::Ready ==> preflight_next(
            PreflightPhase::AwaitingGantry,
            PreflightEvent::Gantry(status),
        ) == (PreflightPhase::AwaitingGantry, PreflightAction::PollGantry),
        preflight_next(PreflightPhase::AwaitingGantry, PreflightEvent::Gantry(GantryStatus::Ready))
            == (PreflightPhase::ConfiguringGantry, PreflightAction::ConfigureGantry),
        preflight_next(PreflightPhase::ConfiguringGantry, PreflightEvent::Completed) == (
            PreflightPhase::ConfiguringNodeMotor(0),
            PreflightAction::ConfigureNodeMotor(0),
        ),
        i + 1 < NUMBER_OF_NODES ==> preflight_next(
            PreflightPhase::ConfiguringNodeMotor(i),
            PreflightEvent::Completed,
        ) == (
            PreflightPhase::ConfiguringNodeMotor((i + 1) as usize),
            PreflightAction::ConfigureNodeMotor((i + 1) as usize),
        ),
        preflight_next(
            PreflightPhase::ConfiguringNodeMotor((NUMBER_OF_NODES - 1) as usize),
            PreflightEvent::Completed,
        ) == (PreflightPhase::Settling, PreflightAction::Settle),
        preflight_next(PreflightPhase::Settling, PreflightEvent::Completed) == (
            PreflightPhase::ClosingGripper,
            PreflightAction::CloseGripper,
        ),
        preflight_next(PreflightPhase::ClosingGripper, PreflightEvent::Completed) == (
            PreflightPhase::RetractingSealer,
            PreflightAction::RetractSealer,
        ),
        preflight_next(PreflightPhase::RetractingSealer, PreflightEvent::Completed) == (
            PreflightPhase::OpeningTrapDoor,
            PreflightAction::OpenTrapDoor,
        ),
        preflight_next(PreflightPhase::OpeningTrapDoor, PreflightEvent::Completed) == (
            PreflightPhase::ClosingHatch(0),
            PreflightAction::CloseHatch(0),
        ),
        i + 1 < NUMBER_OF_NODES ==> preflight_next(
            PreflightPhase::ClosingHatch(i),
            PreflightEvent::Completed,
        ) == (PreflightPhase::ClosingHatch((i + 1) as usize), PreflightAction::CloseHatch(
            (i + 1) as usize,
        )),
        preflight_next(
            PreflightPhase::ClosingHatch((NUMBER_OF_NODES - 1) as usize),
            PreflightEvent::Completed,
        ) == (PreflightPhase::DispensingBagAndHoming, PreflightAction::DispenseBagAndHomeGantry),
        preflight_next(PreflightPhase::DispensingBagAndHoming, PreflightEvent::Completed) == (
            PreflightPhase::Done,
            PreflightAction::Finish,
        ),
{
}

} // verus!
