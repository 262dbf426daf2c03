# ryo_control

Decision logic of the Ryo bagging cell, verified with Verus.

- `src/state.rs`: the machine state a cycle tracks (per-node hatch state, bag
  held, bag fill state) with exact getters and setters.
- `src/cycle.rs`: one bagging cycle as a state machine: `Cycle::start` and
  `Cycle::advance` take the machine's reports and return the next action;
  proved laws cover the phase invariant, termination, emptied hatches, and
  that cycling never stalls.
- `src/preflight.rs`: the preparation sequence before the first cycle.
- `src/sensors.rs`, `src/launch.rs`: sensor readings, gantry decisions and the
  command-line choices.
- `app/`: the program that talks to the hardware and performs the actions.
