use scx_integration_test_framework::lifecycle::exit_ok;
use scx_integration_test_framework::lifecycle::Cleanup;
use scx_integration_test_framework::lifecycle::CleanupAction;
use scx_integration_test_framework::lifecycle::CleanupError;
use scx_integration_test_framework::lifecycle::ExitStatus;
use scx_integration_test_framework::lifecycle::Observation;
use scx_integration_test_framework::vm::guest_command;
use scx_integration_test_framework::vm::run_events;
use scx_integration_test_framework::vm::verdict;
use scx_integration_test_framework::vm::VmError;
use scx_integration_test_framework::vm::VmEvent;

fn code(c: i32) -> ExitStatus {
    ExitStatus { code: Some(c), signal: None }
}

fn signal(s: i32) -> ExitStatus {
    ExitStatus { code: None, signal: Some(s) }
}

#[test]
fn clean_exits() {
    assert!(exit_ok(code(0)));
    assert!(exit_ok(signal(15)));
    assert!(!exit_ok(code(1)));
    assert!(!exit_ok(signal(9)));
    assert!(!exit_ok(ExitStatus { code: None, signal: None }));
}

#[test]
fn exit_zero_before_cleanup_is_success() {
    let mut c = Cleanup::new();
    assert_eq!(c.step(Observation::Exited(code(0))), CleanupAction::Finish(Ok(())));
    assert!(c.is_done());
}

#[test]
fn bad_exit_before_cleanup_is_early_termination() {
    let mut c = Cleanup::new();
    assert_eq!(
        c.step(Observation::Exited(code(3))),
        CleanupAction::Finish(Err(CleanupError::TerminatedEarly(code(3))))
    );
}

#[test]
fn stuck_process_gets_one_signal_and_ten_checks() {
    let mut c = Cleanup::new();
    let mut actions = Vec::new();
    loop {
        let a = c.step(Observation::Running);
        actions.push(a);
        if c.is_done() {
            break;
        }
    }
    assert_eq!(actions.len(), 11);
    assert_eq!(actions[0], CleanupAction::SendTerm);
    assert_eq!(actions.iter().filter(|a| **a == CleanupAction::SendTerm).count(), 1);
    for a in &actions[1..10] {
        assert_eq!(*a, CleanupAction::Sleep(100));
    }
    assert_eq!(actions[10], CleanupAction::Finish(Err(CleanupError::Timeout)));
}

#[test]
fn exit_after_signal() {
    let mut c = Cleanup::new();
    assert_eq!(c.step(Observation::Running), CleanupAction::SendTerm);
    assert_eq!(c.step(Observation::Running), CleanupAction::Sleep(100));
    assert_eq!(c.step(Observation::Exited(signal(15))), CleanupAction::Finish(Ok(())));

    let mut c = Cleanup::new();
    assert_eq!(c.step(Observation::Running), CleanupAction::SendTerm);
    assert_eq!(
        c.step(Observation::Exited(signal(9))),
        CleanupAction::Finish(Err(CleanupError::BadExit(signal(9))))
    );
}

fn stream_ok(exit: i64) -> Vec<VmEvent> {
    vec![
        VmEvent::BootStart,
        VmEvent::Boot("booting".to_string()),
        VmEvent::BootEnd(Ok(())),
        VmEvent::SetupStart,
        VmEvent::Setup("mounting".to_string()),
        VmEvent::SetupEnd(Ok(())),
        VmEvent::CommandStart,
        VmEvent::Command("running".to_string()),
        VmEvent::CommandEnd(Ok(exit)),
    ]
}

#[test]
fn command_end_gives_exit_code() {
    assert!(matches!(run_events(&stream_ok(0)), Ok(0)));
    assert!(matches!(run_events(&stream_ok(2)), Ok(2)));
}

#[test]
fn boot_failure_stops_before_setup() {
    let mut evs = vec![VmEvent::BootStart, VmEvent::BootEnd(Err("no kernel".to_string()))];
    evs.extend(stream_ok(0).into_iter().skip(3));
    match run_events(&evs) {
        Err(VmError::Boot(e)) => assert_eq!(e, "no kernel"),
        other => panic!("unexpected {:?}", other),
    }
}

#[test]
fn setup_and_command_failures() {
    let evs = vec![VmEvent::BootEnd(Ok(())), VmEvent::SetupEnd(Err("x".to_string())), VmEvent::CommandEnd(Ok(0))];
    assert!(matches!(run_events(&evs), Err(VmError::Setup(e)) if e == "x"));
    let evs = vec![VmEvent::CommandEnd(Err("y".to_string()))];
    assert!(matches!(run_events(&evs), Err(VmError::Command(e)) if e == "y"));
}

#[test]
fn stream_without_command_end_is_a_violation() {
    let evs = vec![VmEvent::BootStart, VmEvent::BootEnd(Ok(())), VmEvent::SetupEnd(Ok(()))];
    assert!(matches!(run_events(&evs), Err(VmError::ChannelClosed)));
    assert!(matches!(run_events(&[]), Err(VmError::ChannelClosed)));
}

#[test]
fn progress_events_decide_nothing() {
    assert!(verdict(&VmEvent::Boot("b".to_string())).is_none());
    assert!(verdict(&VmEvent::BootEnd(Ok(()))).is_none());
    assert!(matches!(verdict(&VmEvent::CommandEnd(Ok(7))), Some(Ok(7))));
}

#[test]
fn guest_command_joins_with_space() {
    assert_eq!(guest_command("/bin/target", "foo_bar"), "/bin/target foo_bar");
}
