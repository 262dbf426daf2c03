use vstd::prelude::*;
use vstd::string::*;

verus! {

/// Commands for a cycling machine.
pub enum CycleCmd {
    Cycle(usize),
    Pause,
    Cancel,
}

/// Which network interface the EtherCAT master binds to.
#[derive(Clone, Copy, Debug, PartialEq, Eq, Structural)]
pub enum Interface {
    /// The interface of a development machine.
    Local,
    /// The interface of the machine's own controller.
    Ryo,
}

/// What the program runs once the machine is connected.
#[derive(Clone, Copy, Debug, PartialEq, Eq, Structural)]
pub enum RunMode {
    /// Serve the operator interface.
    Hmi,
    /// Run bagging cycles until interrupted.
    Cycle,
}

/// Whether two strings hold the same characters.
fn same_text(a: &str, b: &str) -> (r: bool)
    ensures
        r <==> a@ == b@,
{
    let n = a.unicode_len();
    if n != b.unicode_len() {
        return false;
    }
    let mut i: usize = 0;
    while i < n
        invariant
            n == a@.len(),
            n == b@.len(),
            i <= n,
            forall|j: int| 0 <= j < i ==> a@[j] == b@[j],
        decreases n - i,
    {
        if a.get_char(i) != b.get_char(i) {
            return false;
        }
        i += 1;
    }
    assert(a@ =~= b@);
    true
}

/// The interface for the host named on the command line: a local test host
/// uses the development interface, every other host the controller's.
pub fn select_interface(host: &str) -> (r: Interface)
    ensures
        r == (if host@ == "local-test"@ { Interface::Local } else { Interface::Ryo }),
{
    if same_text(host, "local-test") {
        Interface::Local
    } else {
        Interface::Ryo
    }
}

/// The run mode named on the command line, or `None` for any other word.
pub fn parse_run_mode(task: &str) -> (r: Option<RunMode>)
    ensures
        r == (if task@ == "hmi"@ {
            Some(RunMode::Hmi)
        } else if task@ == "cycle"@ {
            Some(RunMode::Cycle)
        } else {
            None
        }),
{
    if same_text(task, "hmi") {
        Some(RunMode::Hmi)
    } else if same_text(task, "cycle") {
        Some(RunMode::Cycle)
    } else {
        None
    }
}

} // verus!
