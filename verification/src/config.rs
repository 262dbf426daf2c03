use vstd::prelude::*;

verus! {

/// Number of dispensing nodes (and hatches) on the machine.
pub const NUMBER_OF_NODES: usize = 4;

} // verus!
