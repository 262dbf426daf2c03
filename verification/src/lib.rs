//! Decision logic of the Ryo bagging cell: the machine state it tracks, the
//! steps of one bagging cycle, the start-up sequence, and the launch options.

pub mod config;
pub mod cycle;
pub mod launch;
pub mod preflight;
pub mod sensors;
pub mod state;
