use taskman::domain::{ActionKind, ActionRequest, TaskmanError};
use taskman::linux::{
    affinity_outcome, build_cpu_set, linux_capabilities, priority_outcome, run_linux_action,
    run_unix_signal, set_affinity, signal_outcome, LinuxStep, UnixSignal, CPU_SET_CAPACITY,
    EINVAL_CODE,
};

const MISSING_PID: i32 = i32::MAX;

fn request(action: ActionKind, priority: Option<i32>, affinity: Option<Vec<usize>>) -> ActionRequest {
    ActionRequest {
        pid: MISSING_PID,
        action,
        priority,
        affinity,
    }
}

#[test]
fn signal_names() {
    assert_eq!(UnixSignal::Kill.as_str(), "SIGKILL");
    assert_eq!(UnixSignal::Stop.as_str(), "SIGSTOP");
    assert_eq!(UnixSignal::Cont.as_str(), "SIGCONT");
}

#[test]
fn signal_outcome_reports_the_signal() {
    let o = signal_outcome(42, UnixSignal::Kill, Ok(())).unwrap();
    assert!(o.ok);
    assert_eq!(o.message, "sent SIGKILL to pid=42");
    let o = signal_outcome(-7, UnixSignal::Stop, Ok(())).unwrap();
    assert_eq!(o.message, "sent SIGSTOP to pid=-7");
}

#[test]
fn signal_outcome_reports_the_errno() {
    match signal_outcome(42, UnixSignal::Kill, Err(3)) {
        Err(TaskmanError::Platform(m)) => assert_eq!(m, "ESRCH: No such process"),
        other => panic!("unexpected {:?}", other),
    }
    match signal_outcome(42, UnixSignal::Cont, Err(1)) {
        Err(TaskmanError::Platform(m)) => assert_eq!(m, "EPERM: Operation not permitted"),
        other => panic!("unexpected {:?}", other),
    }
}

#[test]
fn signal_to_missing_process_fails() {
    match run_unix_signal(MISSING_PID, UnixSignal::Kill) {
        Err(TaskmanError::Platform(m)) => assert_eq!(m, "ESRCH: No such process"),
        other => panic!("unexpected {:?}", other),
    }
}

#[test]
fn continue_signal_to_own_group_succeeds() {
    let o = run_unix_signal(0, UnixSignal::Cont).unwrap();
    assert!(o.ok);
    assert_eq!(o.message, "sent SIGCONT to pid=0");
}

#[test]
fn priority_outcome_cases() {
    let o = priority_outcome(42, -5, 0, String::from("unused")).unwrap();
    assert!(o.ok);
    assert_eq!(o.message, "set priority=-5 on pid=42");
    match priority_outcome(42, 10, -1, String::from("Permission denied (os error 13)")) {
        Err(TaskmanError::Platform(m)) => assert_eq!(m, "Permission denied (os error 13)"),
        other => panic!("unexpected {:?}", other),
    }
}

#[test]
fn cpu_sets_are_built_within_capacity() {
    assert_eq!(CPU_SET_CAPACITY, 1024);
    let set = build_cpu_set(&[0, 3, 1023]).unwrap();
    assert!(set.is_set(0).unwrap());
    assert!(set.is_set(3).unwrap());
    assert!(set.is_set(1023).unwrap());
    assert!(!set.is_set(1).unwrap());
    assert_eq!(build_cpu_set(&[1, 1024]).err(), Some(EINVAL_CODE));
    assert!(build_cpu_set(&[]).is_ok());
}

#[test]
fn empty_affinity_is_refused() {
    match set_affinity(1, &[]) {
        Err(TaskmanError::InvalidInput(m)) => {
            assert_eq!(m, "affinity must include at least one CPU index")
        }
        other => panic!("unexpected {:?}", other),
    }
}

#[test]
fn affinity_beyond_the_set_is_refused() {
    match set_affinity(1, &[0, 5000]) {
        Err(TaskmanError::InvalidInput(m)) => assert_eq!(m, "EINVAL: Invalid argument"),
        other => panic!("unexpected {:?}", other),
    }
}

#[test]
fn affinity_of_missing_process_fails() {
    match set_affinity(MISSING_PID, &[0]) {
        Err(TaskmanError::Platform(m)) => assert_eq!(m, "ESRCH: No such process"),
        other => panic!("unexpected {:?}", other),
    }
}

#[test]
fn affinity_outcome_reports_the_cpus() {
    let o = affinity_outcome(7, &[0, 2], Ok(())).unwrap();
    assert!(o.ok);
    assert_eq!(o.message, "set affinity=[0, 2] on pid=7");
    match affinity_outcome(7, &[0], Err(22)) {
        Err(TaskmanError::Platform(m)) => assert_eq!(m, "EINVAL: Invalid argument"),
        other => panic!("unexpected {:?}", other),
    }
}

#[test]
fn linux_capabilities_are_full() {
    let m = linux_capabilities();
    assert!(m.can_kill && m.can_suspend && m.can_resume && m.can_set_priority && m.can_set_affinity);
}

#[test]
fn missing_parameters_are_refused() {
    match run_linux_action(request(ActionKind::SetPriority, None, Some(vec![0]))) {
        LinuxStep::Finished(Err(TaskmanError::InvalidInput(m))) => {
            assert_eq!(m, "set_priority requires `priority`")
        }
        _ => panic!("priority request without priority was not refused"),
    }
    match run_linux_action(request(ActionKind::SetAffinity, Some(1), None)) {
        LinuxStep::Finished(Err(TaskmanError::InvalidInput(m))) => {
            assert_eq!(m, "set_affinity requires `affinity`")
        }
        _ => panic!("affinity request without affinity was not refused"),
    }
}

#[test]
fn priority_requests_are_handed_back() {
    match run_linux_action(request(ActionKind::SetPriority, Some(-4), None)) {
        LinuxStep::SetPriority { pid, priority } => {
            assert_eq!(pid, MISSING_PID);
            assert_eq!(priority, -4);
        }
        _ => panic!("priority request was not handed back"),
    }
}

#[test]
fn priority_step_completes_with_its_outcome() {
    match run_linux_action(request(ActionKind::SetPriority, Some(3), None)) {
        LinuxStep::SetPriority { pid, priority } => {
            let o = priority_outcome(pid, priority, 0, String::new()).unwrap();
            assert!(o.ok);
            assert_eq!(o.message, "set priority=3 on pid=2147483647");
        }
        _ => panic!("priority request was not handed back"),
    }
}

#[test]
fn signal_actions_reach_the_system() {
    for kind in [ActionKind::Kill, ActionKind::Suspend, ActionKind::Resume] {
        match run_linux_action(request(kind, None, None)) {
            LinuxStep::Finished(Err(TaskmanError::Platform(m))) => {
                assert_eq!(m, "ESRCH: No such process")
            }
            _ => panic!("signal to a missing process did not fail"),
        }
    }
}

#[test]
fn affinity_actions_are_validated_then_applied() {
    match run_linux_action(request(ActionKind::SetAffinity, None, Some(vec![]))) {
        LinuxStep::Finished(Err(TaskmanError::InvalidInput(m))) => {
            assert_eq!(m, "affinity must include at least one CPU index")
        }
        _ => panic!("empty affinity was not refused"),
    }
    match run_linux_action(request(ActionKind::SetAffinity, None, Some(vec![0]))) {
        LinuxStep::Finished(Err(TaskmanError::Platform(m))) => {
            assert_eq!(m, "ESRCH: No such process")
        }
        _ => panic!("affinity of a missing process did not fail"),
    }
}

#[test]
fn linux_successes_report_ok() {
    let o = run_unix_signal(0, UnixSignal::Cont).unwrap();
    assert!(o.ok);
    let o = affinity_outcome(0, &[1], Ok(())).unwrap();
    assert!(o.ok);
}
