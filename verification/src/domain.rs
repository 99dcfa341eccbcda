//! The shared domain model: errors, actions, capability matrices and the
//! contract that every backend that carries out actions fulfils.

use std::time::Duration;
use std::time::SystemTime;
use vstd::prelude::*;

use crate::text::append_i32;
use crate::text::int_text;

verus! {

/// An error of the library.
#[derive(Debug)]
pub enum TaskmanError {
    UnsupportedAction(String),
    ProcessNotFound(i32),
    PermissionDenied(String),
    InvalidInput(String),
    Platform(String),
    Internal(String),
}

/// The result of an operation of the library.
pub type TaskmanResult<T> = Result<T, TaskmanError>;

impl TaskmanError {
    /// The text by which the error describes itself.
    pub open spec fn text(self) -> Seq<char> {
        match self {
            TaskmanError::UnsupportedAction(m) => "unsupported action: "@ + m@,
            TaskmanError::ProcessNotFound(pid) => "process not found: pid="@ + int_text(pid as int),
            TaskmanError::PermissionDenied(m) => "permission denied: "@ + m@,
            TaskmanError::InvalidInput(m) => "invalid input: "@ + m@,
            TaskmanError::Platform(m) => "platform error: "@ + m@,
            TaskmanError::Internal(m) => "internal error: "@ + m@,
        }
    }

    /// Renders the error as its description, such as
    /// `process not found: pid=42`.
    pub fn display_text(&self) -> (s: String)
        ensures
            s@ == self.text(),
    {
        match self {
            TaskmanError::UnsupportedAction(m) => {
                let mut s = String::from_str("unsupported action: ");
                s.append(m.as_str());
                s
            },
            TaskmanError::ProcessNotFound(pid) => {
                let mut s = String::from_str("process not found: pid=");
                append_i32(&mut s, *pid);
                s
            },
            TaskmanError::PermissionDenied(m) => {
                let mut s = String::from_str("permission denied: ");
                s.append(m.as_str());
                s
            },
            TaskmanError::InvalidInput(m) => {
                let mut s = String::from_str("invalid input: ");
                s.append(m.as_str());
                s
            },
            TaskmanError::Platform(m) => {
                let mut s = String::from_str("platform error: ");
                s.append(m.as_str());
                s
            },
            TaskmanError::Internal(m) => {
                let mut s = String::from_str("internal error: ");
                s.append(m.as_str());
                s
            },
        }
    }
}

/// A control action on a process.
#[derive(Debug, Clone, Copy, PartialEq, Eq, Hash, Structural)]
pub enum ActionKind {
    Kill,
    Suspend,
    Resume,
    SetPriority,
    SetAffinity,
}

impl ActionKind {
    /// The name of the action on the wire.
    pub open spec fn name(self) -> Seq<char> {
        match self {
            ActionKind::Kill => "kill"@,
            ActionKind::Suspend => "suspend"@,
            ActionKind::Resume => "resume"@,
            ActionKind::SetPriority => "set_priority"@,
            ActionKind::SetAffinity => "set_affinity"@,
        }
    }

    /// The name of the action: `kill`, `suspend`, `resume`, `set_priority`
    /// or `set_affinity`.
    pub fn as_str(self) -> (s: &'static str)
        ensures
            s@ == self.name(),
    {
        match self {
            ActionKind::Kill => "kill",
            ActionKind::Suspend => "suspend",
            ActionKind::Resume => "resume",
            ActionKind::SetPriority => "set_priority",
            ActionKind::SetAffinity => "set_affinity",
        }
    }
}

/// A request to act on the process `pid`. `priority` is read by
/// `SetPriority` and `affinity` by `SetAffinity`.
#[derive(Debug, Clone)]
pub struct ActionRequest {
    pub pid: i32,
    pub action: ActionKind,
    pub priority: Option<i32>,
    pub affinity: Option<Vec<usize>>,
}

/// What an action that was carried out reports.
#[derive(Debug, Clone)]
pub struct ActionOutcome {
    pub ok: bool,
    pub message: String,
}

/// Which actions a backend can carry out.
#[derive(Debug, Clone)]
pub struct CapabilityMatrix {
    pub can_kill: bool,
    pub can_suspend: bool,
    pub can_resume: bool,
    pub can_set_priority: bool,
    pub can_set_affinity: bool,
}

impl CapabilityMatrix {
    /// True when no action is available.
    pub open spec fn is_read_only(self) -> bool {
        !self.can_kill && !self.can_suspend && !self.can_resume && !self.can_set_priority
            && !self.can_set_affinity
    }

    /// True when every action is available.
    pub open spec fn is_full(self) -> bool {
        self.can_kill && self.can_suspend && self.can_resume && self.can_set_priority
            && self.can_set_affinity
    }

    /// The matrix of a backend that can carry out no action.
    pub fn read_only() -> (m: Self)
        ensures
            m.is_read_only(),
    {
        CapabilityMatrix {
            can_kill: false,
            can_suspend: false,
            can_resume: false,
            can_set_priority: false,
            can_set_affinity: false,
        }
    }
}

/// A backend that carries out control actions. An implementation may state
/// in its own `ensures` what its methods return; the engine hands on
/// whatever they state.
pub trait ActionExecutor: Send + Sync {
    /// Carries out `request`.
    fn run_action(&self, request: ActionRequest) -> TaskmanResult<ActionOutcome>;

    /// The actions that this backend can carry out.
    fn capabilities(&self) -> CapabilityMatrix;
}

/// The timestamp, in milliseconds, that a reading of the clock gives: the
/// milliseconds since the Unix epoch cut to 64 bits, or 0 for a clock before
/// the epoch.
pub open spec fn timestamp_of(millis: Option<u128>) -> u64 {
    match millis {
        Some(m) => m as u64,
        None => 0,
    }
}

/// The timestamp for a reading of the clock, as `timestamp_of` describes it.
pub fn timestamp_ms_from(millis: Option<u128>) -> (t: u64)
    ensures
        t == timestamp_of(millis),
{
    match millis {
        Some(m) => m as u64,
        None => 0,
    }
}

#[verifier::external_type_specification]
#[verifier::external_body]
pub struct ExSystemTime(SystemTime);

/// `SystemTime::now`: the current time of the system clock. It depends on
/// the moment of the call, so nothing is stated of it.
#[verifier::external_body]
fn system_time_now() -> SystemTime {
    SystemTime::now()
}

/// The time elapsed from the Unix epoch to `t`, `None` for a time before the
/// epoch: what `SystemTime::duration_since(UNIX_EPOCH)` gives, which depends on
/// `t` alone.
pub uninterp spec fn epoch_offset(t: SystemTime) -> Option<Duration>;

/// The whole milliseconds of `d`: what `Duration::as_millis` gives, which
/// depends on `d` alone.
pub uninterp spec fn whole_millis(d: Duration) -> u128;

/// The milliseconds since the epoch that a reading `now` of the clock gives,
/// `None` for a reading before the epoch.
pub open spec fn millis_reading(now: SystemTime) -> Option<u128> {
    match epoch_offset(now) {
        Some(d) => Some(whole_millis(d)),
        None => None,
    }
}

/// `SystemTime::duration_since` with `UNIX_EPOCH`, its error turned into
/// `None`: the time elapsed since the epoch, named `epoch_offset`.
#[verifier::external_body]
fn since_unix_epoch(t: &SystemTime) -> (r: Option<Duration>)
    ensures
        r == epoch_offset(*t),
{
    t.duration_since(std::time::UNIX_EPOCH).ok()
}

/// `Duration::as_millis`: the whole milliseconds of a duration, named
/// `whole_millis`.
#[verifier::external_body]
fn duration_millis(d: &Duration) -> (r: u128)
    ensures
        r == whole_millis(*d),
{
    d.as_millis()
}

/// The current time in milliseconds since the Unix epoch, or 0 when the
/// system clock stands before the epoch: the timestamp of some reading of the
/// clock, which depends on the moment of the call.
pub fn now_timestamp_ms() -> (t: u64)
    ensures
        exists|now: SystemTime| t == timestamp_of(#[trigger] millis_reading(now)),
{
    let now = system_time_now();
    let millis = match since_unix_epoch(&now) {
        Some(d) => Some(duration_millis(&d)),
        None => None,
    };
    assert(millis == millis_reading(now));
    timestamp_ms_from(millis)
}

} // verus!
