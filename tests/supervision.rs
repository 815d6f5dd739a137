use factorio_mods::supervisor::{
    exit_code, server_args, ExitReport, SignalRelay, Supervisor, SupervisorAction, SupervisorEvent,
    SupervisorState, TerminationSignal,
};

fn running(pid: u32) -> Supervisor {
    let mut s = Supervisor::new();
    assert_eq!(s.step(SupervisorEvent::Start), SupervisorAction::Launch);
    assert_eq!(s.step(SupervisorEvent::Spawned { pid: Some(pid) }), SupervisorAction::Wait);
    assert_eq!(s.state(), SupervisorState::Running { pid: Some(pid) });
    s
}

#[test]
fn one_signal_terminates_then_waits_for_exit() {
    let mut s = running(42);
    assert_eq!(s.step(SupervisorEvent::Shutdown), SupervisorAction::Terminate(42));
    assert_eq!(s.state(), SupervisorState::Stopping);
    let done = s.step(SupervisorEvent::ChildExited(ExitReport::Status(Some(0))));
    assert_eq!(done, SupervisorAction::Finish(0));
}

#[test]
fn second_signal_is_absorbed() {
    let mut s = running(42);
    assert_eq!(s.step(SupervisorEvent::Shutdown), SupervisorAction::Terminate(42));
    assert_eq!(s.step(SupervisorEvent::Shutdown), SupervisorAction::Wait);
    s.step(SupervisorEvent::ChildExited(ExitReport::Status(None)));
    assert_eq!(s.step(SupervisorEvent::Shutdown), SupervisorAction::Wait);
}

#[test]
fn no_termination_after_exit() {
    let mut s = running(7);
    assert_eq!(
        s.step(SupervisorEvent::ChildExited(ExitReport::Status(Some(0)))),
        SupervisorAction::Finish(0)
    );
    assert_eq!(s.step(SupervisorEvent::Shutdown), SupervisorAction::Wait);
    assert_eq!(s.state(), SupervisorState::Exited { report: ExitReport::Status(Some(0)) });
}

#[test]
fn child_exit_code_seven_is_reported() {
    let mut s = running(100);
    let done = s.step(SupervisorEvent::ChildExited(ExitReport::Status(Some(7))));
    assert_eq!(done, SupervisorAction::Finish(7));
}

#[test]
fn exit_codes() {
    assert_eq!(exit_code(ExitReport::Status(Some(0))), 0);
    assert_eq!(exit_code(ExitReport::Status(Some(7))), 7);
    assert_eq!(exit_code(ExitReport::Status(None)), 1);
    assert_eq!(exit_code(ExitReport::WaitFailed), 1);
}

#[test]
fn shutdown_during_launch_terminates_on_spawn() {
    let mut s = Supervisor::new();
    s.step(SupervisorEvent::Start);
    assert_eq!(s.step(SupervisorEvent::Shutdown), SupervisorAction::Wait);
    assert_eq!(s.step(SupervisorEvent::Spawned { pid: Some(9) }), SupervisorAction::Terminate(9));
    assert_eq!(s.step(SupervisorEvent::Shutdown), SupervisorAction::Wait);
}

#[test]
fn idle_supervisor_ignores_everything_but_start() {
    let mut s = Supervisor::new();
    assert_eq!(s.step(SupervisorEvent::Shutdown), SupervisorAction::Wait);
    assert_eq!(s.step(SupervisorEvent::ChildExited(ExitReport::WaitFailed)), SupervisorAction::Wait);
    assert_eq!(s.state(), SupervisorState::Idle);
}

#[test]
fn relay_raises_once() {
    let mut relay = SignalRelay::new();
    assert!(relay.relay(TerminationSignal::Terminate));
    assert!(!relay.relay(TerminationSignal::Interrupt));
    assert!(!relay.relay(TerminationSignal::Terminate));
}

#[test]
fn server_arguments() {
    let extra = vec!["--start-server".to_string(), "save.zip".to_string()];
    assert_eq!(
        server_args("/srv/mods", &extra),
        vec!["--mod-directory", "/srv/mods", "--start-server", "save.zip"]
    );
    assert_eq!(server_args("/m", &Vec::new()), vec!["--mod-directory", "/m"]);
}
