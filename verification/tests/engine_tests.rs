use taskman::domain::{ActionExecutor, ActionKind, ActionRequest, TaskmanError};
use taskman::engine::TaskmanEngine;
use taskman::windows::WindowsBackend;

fn request(action: ActionKind) -> ActionRequest {
    ActionRequest {
        pid: 1,
        action,
        priority: Some(3),
        affinity: Some(vec![0]),
    }
}

#[test]
fn windows_backend_is_created() {
    assert!(WindowsBackend::new().is_ok());
}

#[test]
fn windows_backend_refuses_every_action() {
    let backend = WindowsBackend::new().unwrap();
    for kind in [
        ActionKind::Kill,
        ActionKind::Suspend,
        ActionKind::Resume,
        ActionKind::SetPriority,
        ActionKind::SetAffinity,
    ] {
        match backend.run_action(request(kind)) {
            Err(TaskmanError::UnsupportedAction(m)) => {
                assert_eq!(m, "windows actions are scaffolded but not implemented yet")
            }
            other => panic!("unexpected answer {:?}", other),
        }
    }
}

#[test]
fn windows_backend_refuses_snapshots() {
    let backend = WindowsBackend::new().unwrap();
    match backend.snapshot_refusal() {
        TaskmanError::UnsupportedAction(m) => {
            assert_eq!(m, "windows backend is scaffolded but not implemented yet")
        }
        other => panic!("unexpected error {:?}", other),
    }
}

#[test]
fn windows_engine_is_read_only_and_refuses() {
    let engine = TaskmanEngine::new(WindowsBackend::new().unwrap());
    let m = engine.capabilities();
    assert!(!m.can_kill && !m.can_suspend && !m.can_resume);
    assert!(!m.can_set_priority && !m.can_set_affinity);
    assert!(matches!(
        engine.run_action(request(ActionKind::Kill)),
        Err(TaskmanError::UnsupportedAction(_))
    ));
    assert!(engine.backend().capabilities().can_kill == false);
}
