//! The Windows backend. It is a scaffold: it refuses every action and every
//! snapshot, and reports that it can carry out nothing.

use vstd::prelude::*;

use crate::domain::ActionExecutor;
use crate::domain::ActionOutcome;
use crate::domain::ActionRequest;
use crate::domain::CapabilityMatrix;
use crate::domain::TaskmanError;
use crate::domain::TaskmanResult;

verus! {

/// The text with which the Windows backend refuses actions.
pub open spec fn windows_actions_refusal() -> Seq<char> {
    "windows actions are scaffolded but not implemented yet"@
}

/// The text with which the Windows backend refuses snapshots.
pub open spec fn windows_snapshot_refusal() -> Seq<char> {
    "windows backend is scaffolded but not implemented yet"@
}

/// The backend for Windows.
pub struct WindowsBackend;

impl WindowsBackend {
    /// Creates the backend; this never fails.
    pub fn new() -> (r: TaskmanResult<Self>)
        ensures
            r is Ok,
    {
        Ok(WindowsBackend)
    }

    /// The error with which every snapshot request is answered.
    pub fn snapshot_refusal(&self) -> (e: TaskmanError)
        ensures
            e matches TaskmanError::UnsupportedAction(m) && m@ == windows_snapshot_refusal(),
    {
        TaskmanError::UnsupportedAction(String::from_str("windows backend is scaffolded but not implemented yet"))
    }
}

impl ActionExecutor for WindowsBackend {
    /// Refuses every request as unsupported.
    fn run_action(&self, request: ActionRequest) -> (res: TaskmanResult<ActionOutcome>)
        ensures
            res matches Err(TaskmanError::UnsupportedAction(m)) && m@ == windows_actions_refusal(),
    {
        Err(TaskmanError::UnsupportedAction(String::from_str("windows actions are scaffolded but not implemented yet")))
    }

    /// The read-only matrix.
    fn capabilities(&self) -> (m: CapabilityMatrix)
        ensures
            m.is_read_only(),
    {
        CapabilityMatrix::read_only()
    }
}

} // verus!
