use taskman::bridge::{
    capability_entries, map_taskman_error, parse_action, run_action_command, PyExceptionKind,
};
use taskman::domain::{ActionKind, CapabilityMatrix, TaskmanError};
use taskman::engine::TaskmanEngine;
use taskman::linux::linux_capabilities;
use taskman::windows::WindowsBackend;

const ALL: [ActionKind; 5] = [
    ActionKind::Kill,
    ActionKind::Suspend,
    ActionKind::Resume,
    ActionKind::SetPriority,
    ActionKind::SetAffinity,
];

#[test]
fn action_names_are_read_back() {
    for kind in ALL {
        assert_eq!(parse_action(kind.as_str()).unwrap(), kind);
    }
}

#[test]
fn unknown_action_is_a_value_error() {
    for text in ["KILL", "", "stop", "kill "] {
        let e = parse_action(text).unwrap_err();
        assert_eq!(e.kind, PyExceptionKind::ValueError);
        assert_eq!(
            e.message,
            format!(
                "unknown action `{text}`; expected kill|suspend|resume|set_priority|set_affinity"
            )
        );
    }
}

#[test]
fn errors_are_raised_as_their_python_class() {
    let cases = [
        (TaskmanError::PermissionDenied("p".into()), PyExceptionKind::PermissionError, "p"),
        (TaskmanError::InvalidInput("i".into()), PyExceptionKind::ValueError, "i"),
        (TaskmanError::UnsupportedAction("u".into()), PyExceptionKind::TaskmanBridgeError, "u"),
        (TaskmanError::ProcessNotFound(9), PyExceptionKind::TaskmanBridgeError, "process not found: pid=9"),
        (TaskmanError::Platform("f".into()), PyExceptionKind::RuntimeError, "f"),
        (TaskmanError::Internal("n".into()), PyExceptionKind::RuntimeError, "n"),
    ];
    for (error, kind, message) in cases {
        let b = map_taskman_error(error);
        assert_eq!(b.kind, kind);
        assert_eq!(b.message, message);
    }
}

#[test]
fn windows_engine_command_is_refused_as_bridge_error() {
    let engine = TaskmanEngine::new(WindowsBackend::new().unwrap());
    for kind in ALL {
        let e = run_action_command(&engine, 1, kind, None, None).unwrap_err();
        assert_eq!(e.kind, PyExceptionKind::TaskmanBridgeError);
        assert_eq!(e.message, "windows actions are scaffolded but not implemented yet");
    }
}

#[test]
fn capability_entries_in_order() {
    let entries = capability_entries(&linux_capabilities());
    assert_eq!(
        entries,
        vec![
            ("can_kill", true),
            ("can_suspend", true),
            ("can_resume", true),
            ("can_set_priority", true),
            ("can_set_affinity", true),
        ]
    );
    let mixed = CapabilityMatrix {
        can_kill: true,
        can_suspend: false,
        can_resume: true,
        can_set_priority: false,
        can_set_affinity: false,
    };
    let entries = capability_entries(&mixed);
    let values: Vec<bool> = entries.iter().map(|e| e.1).collect();
    assert_eq!(values, vec![true, false, true, false, false]);
    assert!(capability_entries(&CapabilityMatrix::read_only()).iter().all(|e| !e.1));
}
