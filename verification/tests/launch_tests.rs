use ryo_control::launch::{parse_run_mode, select_interface, CycleCmd, Interface, RunMode};

#[test]
fn interface_follows_host() {
    assert_eq!(select_interface("local-test"), Interface::Local);
    assert_eq!(select_interface("ryo"), Interface::Ryo);
    assert_eq!(select_interface("anything"), Interface::Ryo);
    assert_eq!(select_interface(""), Interface::Ryo);
    assert_eq!(select_interface("local-tests"), Interface::Ryo);
}

#[test]
fn run_mode_follows_task() {
    assert_eq!(parse_run_mode("hmi"), Some(RunMode::Hmi));
    assert_eq!(parse_run_mode("cycle"), Some(RunMode::Cycle));
    assert_eq!(parse_run_mode("cycles"), None);
    assert_eq!(parse_run_mode("HMI"), None);
    assert_eq!(parse_run_mode(""), None);
}

#[test]
fn cycle_commands_carry_their_count() {
    let cmds = vec![CycleCmd::Cycle(3), CycleCmd::Pause, CycleCmd::Cancel];
    let counts: Vec<usize> = cmds
        .iter()
        .map(|c| match c {
            CycleCmd::Cycle(n) => *n,
            CycleCmd::Pause | CycleCmd::Cancel => 0,
        })
        .collect();
    assert_eq!(counts, vec![3, 0, 0]);
}
