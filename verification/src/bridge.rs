//! The rules of the Python-facing layer: how an action name is read, which
//! Python exception each error becomes, and what a capability matrix is
//! reported as. The Python objects themselves are built outside this crate.

use vstd::prelude::*;

use crate::domain::ActionExecutor;
use crate::domain::ActionKind;
use crate::domain::ActionOutcome;
use crate::domain::ActionRequest;
use crate::domain::CapabilityMatrix;
use crate::domain::TaskmanError;
use crate::domain::TaskmanResult;
use crate::engine::TaskmanEngine;
use crate::text::append_i32;
use crate::text::int_text;

verus! {

/// The Python exception classes that errors are raised as.
#[derive(Debug, Clone, Copy, PartialEq, Eq, Structural)]
pub enum PyExceptionKind {
    PermissionError,
    ValueError,
    RuntimeError,
    TaskmanBridgeError,
}

/// An exception to raise on the Python side: its class and its message.
#[derive(Debug)]
pub struct BridgeError {
    pub kind: PyExceptionKind,
    pub message: String,
}

/// The action whose name is `s`, if any.
pub open spec fn action_named(s: Seq<char>) -> Option<ActionKind> {
    if s == ActionKind::Kill.name() {
        Some(ActionKind::Kill)
    } else if s == ActionKind::Suspend.name() {
        Some(ActionKind::Suspend)
    } else if s == ActionKind::Resume.name() {
        Some(ActionKind::Resume)
    } else if s == ActionKind::SetPriority.name() {
        Some(ActionKind::SetPriority)
    } else if s == ActionKind::SetAffinity.name() {
        Some(ActionKind::SetAffinity)
    } else {
        None
    }
}

/// The message with which an unknown action name is refused.
pub open spec fn unknown_action_text(s: Seq<char>) -> Seq<char> {
    "unknown action `"@ + s + "`; expected kill|suspend|resume|set_priority|set_affinity"@
}

/// True when `e` is the refusal of the unknown action name `s`.
pub open spec fn is_unknown_action(e: BridgeError, s: Seq<char>) -> bool {
    e.kind == PyExceptionKind::ValueError && e.message@ == unknown_action_text(s)
}

fn same_text(a: &str, b: &str) -> (r: bool)
    ensures
        r == (a@ == b@),
{
    let a_owned = String::from_str(a);
    let b_owned = String::from_str(b);
    a_owned == b_owned
}

/// Reads an action name: `kill`, `suspend`, `resume`, `set_priority` or
/// `set_affinity`; any other text is refused with a `ValueError`.
pub fn parse_action(action: &str) -> (res: Result<ActionKind, BridgeError>)
    ensures
        match action_named(action@) {
            Some(k) => res == Ok::<ActionKind, BridgeError>(k),
            None => res matches Err(e) && is_unknown_action(e, action@),
        },
{
    if same_text(action, ActionKind::Kill.as_str()) {
        Ok(ActionKind::Kill)
    } else if same_text(action, ActionKind::Suspend.as_str()) {
        Ok(ActionKind::Suspend)
    } else if same_text(action, ActionKind::Resume.as_str()) {
        Ok(ActionKind::Resume)
    } else if same_text(action, ActionKind::SetPriority.as_str()) {
        Ok(ActionKind::SetPriority)
    } else if same_text(action, ActionKind::SetAffinity.as_str()) {
        Ok(ActionKind::SetAffinity)
    } else {
        let mut message = String::from_str("unknown action `");
        message.append(action);
        message.append("`; expected kill|suspend|resume|set_priority|set_affinity");
        Err(BridgeError { kind: PyExceptionKind::ValueError, message })
    }
}

/// The exception class that an error is raised as.
pub open spec fn exception_kind(e: TaskmanError) -> PyExceptionKind {
    match e {
        TaskmanError::PermissionDenied(_) => PyExceptionKind::PermissionError,
        TaskmanError::InvalidInput(_) => PyExceptionKind::ValueError,
        TaskmanError::UnsupportedAction(_) => PyExceptionKind::TaskmanBridgeError,
        TaskmanError::ProcessNotFound(_) => PyExceptionKind::TaskmanBridgeError,
        TaskmanError::Platform(_) => PyExceptionKind::RuntimeError,
        TaskmanError::Internal(_) => PyExceptionKind::RuntimeError,
    }
}

/// The message of the exception that an error is raised as: the carried text,
/// or for a missing process `process not found: pid=<pid>`.
pub open spec fn exception_message(e: TaskmanError) -> Seq<char> {
    match e {
        TaskmanError::PermissionDenied(m) => m@,
        TaskmanError::InvalidInput(m) => m@,
        TaskmanError::UnsupportedAction(m) => m@,
        TaskmanError::ProcessNotFound(pid) => "process not found: pid="@ + int_text(pid as int),
        TaskmanError::Platform(m) => m@,
        TaskmanError::Internal(m) => m@,
    }
}

/// True when `b` is the exception that `e` is raised as.
pub open spec fn raised_as(e: TaskmanError, b: BridgeError) -> bool {
    b.kind == exception_kind(e) && b.message@ == exception_message(e)
}

/// The exception that an error of the library is raised as.
pub fn map_taskman_error(error: TaskmanError) -> (b: BridgeError)
    ensures
        raised_as(error, b),
{
    match error {
        TaskmanError::PermissionDenied(message) => BridgeError {
            kind: PyExceptionKind::PermissionError,
            message,
        },
        TaskmanError::InvalidInput(message) => BridgeError {
            kind: PyExceptionKind::ValueError,
            message,
        },
        TaskmanError::UnsupportedAction(message) => BridgeError {
            kind: PyExceptionKind::TaskmanBridgeError,
            message,
        },
        TaskmanError::ProcessNotFound(pid) => {
            let mut message = String::from_str("process not found: pid=");
            append_i32(&mut message, pid);
            BridgeError { kind: PyExceptionKind::TaskmanBridgeError, message }
        },
        TaskmanError::Platform(message) => BridgeError { kind: PyExceptionKind::RuntimeError, message },
        TaskmanError::Internal(message) => BridgeError { kind: PyExceptionKind::RuntimeError, message },
    }
}

/// True when `res` is what the Python layer reports for the backend answer `r`.
pub open spec fn reported_as(
    r: TaskmanResult<ActionOutcome>,
    res: Result<ActionOutcome, BridgeError>,
) -> bool {
    match r {
        Ok(o) => res == Ok::<ActionOutcome, BridgeError>(o),
        Err(e) => res matches Err(b) && raised_as(e, b),
    }
}

/// Runs `action` on the process `pid` through `engine`, with the parameters
/// that the Python caller passed; an error of the backend becomes the
/// exception it is raised as.
pub fn run_action_command<B: ActionExecutor>(
    engine: &TaskmanEngine<B>,
    pid: i32,
    action: ActionKind,
    priority: Option<i32>,
    affinity: Option<Vec<usize>>,
) -> (res: Result<ActionOutcome, BridgeError>)
    ensures
        exists|r: TaskmanResult<ActionOutcome>|
            call_ensures(B::run_action, (&engine.spec_backend(), (ActionRequest { pid, action, priority, affinity })), r)
                && reported_as(r, res),
{
    let request = ActionRequest { pid, action, priority, affinity };
    let answer = engine.run_action(request);
    let ghost r = answer;
    let res = match answer {
        Ok(outcome) => Ok(outcome),
        Err(error) => Err(map_taskman_error(error)),
    };
    assert(reported_as(r, res));
    res
}

/// The entries by which a capability matrix is reported, in this order:
/// `can_kill`, `can_suspend`, `can_resume`, `can_set_priority`,
/// `can_set_affinity`.
pub fn capability_entries(capabilities: &CapabilityMatrix) -> (entries: Vec<(&'static str, bool)>)
    ensures
        entries@.len() == 5,
        entries@[0].0@ == "can_kill"@ && entries@[0].1 == capabilities.can_kill,
        entries@[1].0@ == "can_suspend"@ && entries@[1].1 == capabilities.can_suspend,
        entries@[2].0@ == "can_resume"@ && entries@[2].1 == capabilities.can_resume,
        entries@[3].0@ == "can_set_priority"@ && entries@[3].1 == capabilities.can_set_priority,
        entries@[4].0@ == "can_set_affinity"@ && entries@[4].1 == capabilities.can_set_affinity,
{
    let mut entries: Vec<(&'static str, bool)> = Vec::new();
    entries.push(("can_kill", capabilities.can_kill));
    entries.push(("can_suspend", capabilities.can_suspend));
    entries.push(("can_resume", capabilities.can_resume));
    entries.push(("can_set_priority", capabilities.can_set_priority));
    entries.push(("can_set_affinity", capabilities.can_set_affinity));
    entries
}

} // verus!
