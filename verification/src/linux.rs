//! The decision logic of the Linux backend: which signal each action sends,
//! which requests are refused before any system call, how the CPU set of an
//! affinity request is built, what each outcome reports, and in which order a
//! snapshot lists its processes.
//!
//! Signals and affinity are applied here through `nix`. Setting a priority
//! takes `libc::setpriority`, an unsafe foreign call, which the caller makes
//! when `run_linux_action` asks for it and whose return code it hands to
//! `priority_outcome`.

use nix::errno::Errno;
use nix::sched::sched_setaffinity;
use nix::sched::CpuSet;
use nix::sys::signal::kill;
use nix::sys::signal::Signal;
use nix::unistd::Pid;
use vstd::prelude::*;

use crate::domain::ActionKind;
use crate::domain::ActionOutcome;
use crate::domain::ActionRequest;
use crate::domain::CapabilityMatrix;
use crate::domain::TaskmanError;
use crate::domain::TaskmanResult;
use crate::text::append_i32;
use crate::text::append_usize_list;
use crate::text::int_text;
use crate::text::list_text;

verus! {

/// The signals that the Linux backend sends.
#[derive(Debug, Clone, Copy, PartialEq, Eq, Structural)]
pub enum UnixSignal {
    Kill,
    Stop,
    Cont,
}

impl UnixSignal {
    /// The conventional name of the signal.
    pub open spec fn name(self) -> Seq<char> {
        match self {
            UnixSignal::Kill => "SIGKILL"@,
            UnixSignal::Stop => "SIGSTOP"@,
            UnixSignal::Cont => "SIGCONT"@,
        }
    }

    /// The conventional name of the signal: `SIGKILL`, `SIGSTOP` or `SIGCONT`.
    pub fn as_str(self) -> (s: &'static str)
        ensures
            s@ == self.name(),
    {
        match self {
            UnixSignal::Kill => "SIGKILL",
            UnixSignal::Stop => "SIGSTOP",
            UnixSignal::Cont => "SIGCONT",
        }
    }
}

/// The code of `EINVAL` on Linux, the error of a CPU index beyond the set.
pub const EINVAL_CODE: i32 = 22;

/// The number of CPU indices that a `CpuSet` holds on Linux: eight times the
/// 128 bytes of `cpu_set_t`.
pub const CPU_SET_CAPACITY: usize = 1024;

/// What `nix` writes for the error number `code`, such as
/// `EINVAL: Invalid argument`.
pub uninterp spec fn errno_text(code: i32) -> Seq<char>;

/// `nix::errno::Errno::from_raw` followed by its `Display`: the text of an
/// error number, the debug name of the variant, a colon and its description.
/// It depends on the code alone and is named `errno_text`.
#[verifier::external_body]
fn errno_message(code: i32) -> (s: String)
    ensures
        s@ == errno_text(code),
{
    Errno::from_raw(code).to_string()
}

/// True when `answer` is an answer that `kill` can give when it is asked to
/// send `signal` to the process `pid`: `Ok` once the signal was sent to that
/// process, or the error number of a refusal. It is a relation, not a
/// function: the system may answer two such calls differently.
pub uninterp spec fn kill_answers(pid: i32, signal: UnixSignal, answer: Result<(), i32>) -> bool;

/// `nix::sys::signal::kill`: sends `signal` to the process `pid` and hands
/// back the error number on failure. Whether it succeeds depends on the
/// system; what is stated is that the call was made with `pid` and `signal`.
#[verifier::external_body]
fn send_signal(pid: i32, signal: UnixSignal) -> (r: Result<(), i32>)
    ensures
        kill_answers(pid, signal, r),
{
    let sig = match signal {
        UnixSignal::Kill => Signal::SIGKILL,
        UnixSignal::Stop => Signal::SIGSTOP,
        UnixSignal::Cont => Signal::SIGCONT,
    };
    match kill(Pid::from_raw(pid), sig) {
        Ok(()) => Ok(()),
        Err(e) => Err(e as i32),
    }
}

/// An answer that carries the error number `EINVAL`.
pub open spec fn is_einval(r: Result<(), i32>) -> bool {
    r == Err::<(), i32>(EINVAL_CODE)
}

#[verifier::external_type_specification]
#[verifier::external_body]
pub struct ExCpuSet(CpuSet);

/// The CPU indices that a `CpuSet` holds.
pub uninterp spec fn cpu_set_members(set: CpuSet) -> Set<usize>;

/// `CpuSet::new`: a set that holds no CPU (its mask is zeroed).
#[verifier::external_body]
fn cpu_set_new() -> (set: CpuSet)
    ensures
        cpu_set_members(set) == Set::<usize>::empty(),
{
    CpuSet::new()
}

/// `CpuSet::set`: adds `cpu` to the set when it is below `CpuSet::count()`,
/// else fails with `EINVAL` and leaves the set as it was.
#[verifier::external_body]
fn cpu_set_add(mask: &mut CpuSet, cpu: usize) -> (r: Result<(), i32>)
    ensures
        cpu < CPU_SET_CAPACITY ==> r is Ok,
        cpu < CPU_SET_CAPACITY ==> cpu_set_members(*final(mask)) == cpu_set_members(*old(mask)).insert(cpu),
        cpu >= CPU_SET_CAPACITY ==> is_einval(r),
        cpu >= CPU_SET_CAPACITY ==> cpu_set_members(*final(mask)) == cpu_set_members(*old(mask)),
{
    match mask.set(cpu) {
        Ok(()) => Ok(()),
        Err(e) => Err(e as i32),
    }
}

/// True when `answer` is an answer that `sched_setaffinity` can give when it
/// is asked to pin the process `pid` to the CPUs `cpus`: `Ok` once the mask of
/// that process is set, or the error number of a refusal. It is a relation,
/// not a function: the system may answer two such calls differently.
pub uninterp spec fn setaffinity_answers(pid: i32, cpus: Set<usize>, answer: Result<(), i32>) -> bool;

/// `nix::sched::sched_setaffinity`: pins the process `pid` to the CPUs of
/// `set` and hands back the error number on failure. Whether it succeeds
/// depends on the system; what is stated is that the call was made with `pid`
/// and the members of `set`.
#[verifier::external_body]
fn apply_affinity(pid: i32, set: &CpuSet) -> (r: Result<(), i32>)
    ensures
        setaffinity_answers(pid, cpu_set_members(*set), r),
{
    match sched_setaffinity(Pid::from_raw(pid), set) {
        Ok(()) => Ok(()),
        Err(e) => Err(e as i32),
    }
}

/// The signal that an action sends, for the three actions that send one.
pub open spec fn signal_of(kind: ActionKind) -> Option<UnixSignal> {
    match kind {
        ActionKind::Kill => Some(UnixSignal::Kill),
        ActionKind::Suspend => Some(UnixSignal::Stop),
        ActionKind::Resume => Some(UnixSignal::Cont),
        _ => None,
    }
}

/// The report of a signal that was sent.
pub open spec fn signal_report(signal: UnixSignal, pid: i32) -> Seq<char> {
    "sent "@ + signal.name() + " to pid="@ + int_text(pid as int)
}

/// The report of a priority that was set.
pub open spec fn priority_report(pid: i32, priority: i32) -> Seq<char> {
    "set priority="@ + int_text(priority as int) + " on pid="@ + int_text(pid as int)
}

/// The report of an affinity that was set.
pub open spec fn affinity_report(pid: i32, cpus: Seq<usize>) -> Seq<char> {
    "set affinity="@ + list_text(cpus) + " on pid="@ + int_text(pid as int)
}

/// A successful outcome with the report `text`.
pub open spec fn succeeded_with(res: TaskmanResult<ActionOutcome>, text: Seq<char>) -> bool {
    res matches Ok(o) && o.ok && o.message@ == text
}

/// An error of the given kind whose message is `text`.
pub open spec fn platform_error(res: TaskmanResult<ActionOutcome>, text: Seq<char>) -> bool {
    res matches Err(TaskmanError::Platform(m)) && m@ == text
}

/// An invalid-input error whose message is `text`.
pub open spec fn invalid_input<T>(res: TaskmanResult<T>, text: Seq<char>) -> bool {
    res matches Err(TaskmanError::InvalidInput(m)) && m@ == text
}

/// What a signal action answers once the system call has answered `sent`.
pub open spec fn signal_answer(
    pid: i32,
    signal: UnixSignal,
    sent: Result<(), i32>,
    res: TaskmanResult<ActionOutcome>,
) -> bool {
    match sent {
        Ok(()) => succeeded_with(res, signal_report(signal, pid)),
        Err(code) => platform_error(res, errno_text(code)),
    }
}

/// The outcome of sending `signal` to `pid`, given what the system call
/// answered.
pub fn signal_outcome(pid: i32, signal: UnixSignal, sent: Result<(), i32>) -> (res: TaskmanResult<
    ActionOutcome,
>)
    ensures
        signal_answer(pid, signal, sent, res),
{
    match sent {
        Ok(()) => {
            let mut message = String::from_str("sent ");
            message.append(signal.as_str());
            message.append(" to pid=");
            append_i32(&mut message, pid);
            Ok(ActionOutcome { ok: true, message })
        },
        Err(code) => Err(TaskmanError::Platform(errno_message(code))),
    }
}

/// Sends `signal` to the process `pid`: the outcome is built from an answer
/// of `kill` to exactly that signal and process.
pub fn run_unix_signal(pid: i32, signal: UnixSignal) -> (res: TaskmanResult<ActionOutcome>)
    ensures
        exists|sent: Result<(), i32>|
            #[trigger] kill_answers(pid, signal, sent) && signal_answer(pid, signal, sent, res),
{
    let sent = send_signal(pid, signal);
    signal_outcome(pid, signal, sent)
}

/// What a priority action answers once `setpriority` has returned `code`,
/// with `os_error` the text of the last error of the system.
pub open spec fn priority_answer(
    pid: i32,
    priority: i32,
    code: i32,
    os_error: Seq<char>,
    res: TaskmanResult<ActionOutcome>,
) -> bool {
    if code == 0 {
        succeeded_with(res, priority_report(pid, priority))
    } else {
        platform_error(res, os_error)
    }
}

/// The outcome of setting the priority of `pid` to `priority`, given the code
/// that `setpriority` returned and the text of the last error of the system.
pub fn priority_outcome(pid: i32, priority: i32, code: i32, os_error: String) -> (res: TaskmanResult<
    ActionOutcome,
>)
    ensures
        priority_answer(pid, priority, code, os_error@, res),
{
    if code == 0 {
        let mut message = String::from_str("set priority=");
        append_i32(&mut message, priority);
        message.append(" on pid=");
        append_i32(&mut message, pid);
        Ok(ActionOutcome { ok: true, message })
    } else {
        Err(TaskmanError::Platform(os_error))
    }
}

/// True when every index of `cpus` fits in a CPU set.
pub open spec fn cpus_fit(cpus: Seq<usize>) -> bool {
    forall|i: int| 0 <= i < cpus.len() ==> #[trigger] cpus[i] < CPU_SET_CAPACITY
}

/// The CPU set holding exactly `cpus`, or the error number of the first index
/// that does not fit.
pub fn build_cpu_set(cpus: &[usize]) -> (r: Result<CpuSet, i32>)
    ensures
        cpus_fit(cpus@) <==> r is Ok,
        r matches Ok(set) ==> cpu_set_members(set) == cpus@.to_set(),
        r matches Err(code) ==> code == EINVAL_CODE,
{
    let mut set = cpu_set_new();
    let mut i: usize = 0;
    while i < cpus.len()
        invariant
            i <= cpus@.len(),
            cpu_set_members(set) == cpus@.take(i as int).to_set(),
            cpus_fit(cpus@.take(i as int)),
        decreases cpus@.len() - i,
    {
        let added = cpu_set_add(&mut set, cpus[i]);
        if added.is_err() {
            assert(!cpus_fit(cpus@)) by {
                assert(!(cpus@[i as int] < CPU_SET_CAPACITY));
            }
            return Err(EINVAL_CODE);
        }
        proof {
            assert(cpus@.take(i + 1) =~= cpus@.take(i as int).push(cpus@[i as int]));
            cpus@.take(i as int).lemma_push_to_set_commute(cpus@[i as int]);
            assert(cpus@.take(i as int).push(cpus@[i as int]).to_set() =~= cpus@.take(
                i as int,
            ).to_set().insert(cpus@[i as int]));
            assert forall|k: int| 0 <= k < i + 1 implies #[trigger] cpus@.take(i + 1)[k]
                < CPU_SET_CAPACITY by {
                if k < i {
                    assert(cpus@.take(i + 1)[k] == cpus@.take(i as int)[k]);
                }
            }
        }
        i = i + 1;
    }
    assert(cpus@.take(cpus@.len() as int) =~= cpus@);
    Ok(set)
}

/// What an affinity action answers once `sched_setaffinity` has answered
/// `applied`; `cpus` is not empty and fits in a CPU set.
pub open spec fn affinity_answer(
    pid: i32,
    cpus: Seq<usize>,
    applied: Result<(), i32>,
    res: TaskmanResult<ActionOutcome>,
) -> bool {
    match applied {
        Ok(()) => succeeded_with(res, affinity_report(pid, cpus)),
        Err(code) => platform_error(res, errno_text(code)),
    }
}

/// The outcome of pinning `pid` to `cpus`, given what the system call answered.
pub fn affinity_outcome(pid: i32, cpus: &[usize], applied: Result<(), i32>) -> (res: TaskmanResult<
    ActionOutcome,
>)
    ensures
        affinity_answer(pid, cpus@, applied, res),
{
    match applied {
        Ok(()) => {
            let mut message = String::from_str("set affinity=");
            append_usize_list(&mut message, cpus);
            message.append(" on pid=");
            append_i32(&mut message, pid);
            Ok(ActionOutcome { ok: true, message })
        },
        Err(code) => Err(TaskmanError::Platform(errno_message(code))),
    }
}

/// The refusal of an empty affinity.
pub open spec fn empty_affinity_text() -> Seq<char> {
    "affinity must include at least one CPU index"@
}

/// What a request to pin `pid` to `cpus` answers, whatever the system does:
/// an empty list and an index beyond the CPU set are refused before any
/// system call; otherwise the outcome is built from an answer of
/// `sched_setaffinity` asked to pin `pid` to exactly the CPUs of `cpus`.
pub open spec fn affinity_request_answer(
    pid: i32,
    cpus: Seq<usize>,
    res: TaskmanResult<ActionOutcome>,
) -> bool {
    if cpus.len() == 0 {
        invalid_input(res, empty_affinity_text())
    } else if !cpus_fit(cpus) {
        invalid_input(res, errno_text(EINVAL_CODE))
    } else {
        exists|applied: Result<(), i32>|
            #[trigger] setaffinity_answers(pid, cpus.to_set(), applied) && affinity_answer(
                pid,
                cpus,
                applied,
                res,
            )
    }
}

/// Pins the process `pid` to the CPUs `cpus`.
pub fn set_affinity(pid: i32, cpus: &[usize]) -> (res: TaskmanResult<ActionOutcome>)
    ensures
        affinity_request_answer(pid, cpus@, res),
{
    if cpus.len() == 0 {
        return Err(
            TaskmanError::InvalidInput(
                String::from_str("affinity must include at least one CPU index"),
            ),
        );
    }
    match build_cpu_set(cpus) {
        Ok(set) => {
            let applied = apply_affinity(pid, &set);
            affinity_outcome(pid, cpus, applied)
        },
        Err(code) => Err(TaskmanError::InvalidInput(errno_message(code))),
    }
}

/// The refusal of a priority request without a priority.
pub open spec fn missing_priority_text() -> Seq<char> {
    "set_priority requires `priority`"@
}

/// The refusal of an affinity request without an affinity.
pub open spec fn missing_affinity_text() -> Seq<char> {
    "set_affinity requires `affinity`"@
}

/// What the Linux backend may answer to `request`, whatever the system does.
pub open spec fn linux_answers(request: ActionRequest, res: TaskmanResult<ActionOutcome>) -> bool {
    match request.action {
        ActionKind::SetPriority => match request.priority {
            Some(priority) => exists|code: i32, os_error: Seq<char>|
                #[trigger] priority_answer(request.pid, priority, code, os_error, res),
            None => invalid_input(res, missing_priority_text()),
        },
        ActionKind::SetAffinity => match request.affinity {
            Some(cpus) => affinity_request_answer(request.pid, cpus@, res),
            None => invalid_input(res, missing_affinity_text()),
        },
        _ => exists|sent: Result<(), i32>|
            #[trigger] kill_answers(request.pid, signal_of(request.action).unwrap(), sent)
                && signal_answer(request.pid, signal_of(request.action).unwrap(), sent, res),
    }
}

/// Where the Linux backend stands after its own part of a request: either the
/// request is answered, or the priority of `pid` is to be set to `priority`
/// and its return code handed to `priority_outcome`.
pub enum LinuxStep {
    Finished(TaskmanResult<ActionOutcome>),
    SetPriority { pid: i32, priority: i32 },
}

/// True when `request` asks for a priority and carries one, the one case in
/// which the backend leaves a system call to its caller.
pub open spec fn needs_priority_call(request: ActionRequest) -> bool {
    request.action == ActionKind::SetPriority && request.priority is Some
}

/// Carries out `request` as far as the Linux backend can from here: sends the
/// signal of a kill, suspend or resume, validates and applies an affinity,
/// refuses a request without the parameter it needs, and hands a priority
/// request back to the caller.
pub fn run_linux_action(request: ActionRequest) -> (step: LinuxStep)
    ensures
        match step {
            LinuxStep::Finished(res) => !needs_priority_call(request) && linux_answers(request, res),
            LinuxStep::SetPriority { pid, priority } => needs_priority_call(request) && pid
                == request.pid && request.priority == Some(priority),
        },
{
    let pid = request.pid;
    match request.action {
        ActionKind::Kill => {
            let res = run_unix_signal(pid, UnixSignal::Kill);
            assert(signal_of(request.action).unwrap() == UnixSignal::Kill);
            LinuxStep::Finished(res)
        },
        ActionKind::Suspend => {
            let res = run_unix_signal(pid, UnixSignal::Stop);
            assert(signal_of(request.action).unwrap() == UnixSignal::Stop);
            LinuxStep::Finished(res)
        },
        ActionKind::Resume => {
            let res = run_unix_signal(pid, UnixSignal::Cont);
            assert(signal_of(request.action).unwrap() == UnixSignal::Cont);
            LinuxStep::Finished(res)
        },
        ActionKind::SetPriority => match request.priority {
            Some(priority) => LinuxStep::SetPriority { pid, priority },
            None => LinuxStep::Finished(
                Err(TaskmanError::InvalidInput(String::from_str("set_priority requires `priority`"))),
            ),
        },
        ActionKind::SetAffinity => match request.affinity {
            Some(cpus) => LinuxStep::Finished(set_affinity(pid, cpus.as_slice())),
            None => LinuxStep::Finished(
                Err(TaskmanError::InvalidInput(String::from_str("set_affinity requires `affinity`"))),
            ),
        },
    }
}

/// The matrix of the Linux backend: every action is available.
pub fn linux_capabilities() -> (m: CapabilityMatrix)
    ensures
        m.is_full(),
{
    CapabilityMatrix {
        can_kill: true,
        can_suspend: true,
        can_resume: true,
        can_set_priority: true,
        can_set_affinity: true,
    }
}

} // verus!
