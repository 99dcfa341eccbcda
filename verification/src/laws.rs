//! Properties that relate several operations of the library.

use vstd::prelude::*;

use crate::bridge::action_named;
use crate::bridge::reported_as;
use crate::bridge::BridgeError;
use crate::bridge::PyExceptionKind;
use crate::domain::ActionExecutor;
use crate::domain::CapabilityMatrix;
use crate::domain::ActionKind;
use crate::domain::ActionOutcome;
use crate::domain::ActionRequest;
use crate::domain::TaskmanError;
use crate::domain::TaskmanResult;
use crate::engine::TaskmanEngine;
use crate::linux::affinity_request_answer;
use crate::linux::cpus_fit;
use crate::linux::errno_text;
use crate::linux::kill_answers;
use crate::linux::linux_answers;
use crate::linux::setaffinity_answers;
use crate::linux::UnixSignal;
use crate::linux::needs_priority_call;
use crate::linux::priority_answer;
use crate::process_order::cpu_key;
use crate::process_order::is_cpu_order;
use crate::process_order::ranks_before;
use crate::text::int_text;
use crate::text::list_text;
use crate::windows::WindowsBackend;

verus! {

/// The name of every action is read back as that action, and a name is read
/// as an action only when it is that action's name.
pub proof fn action_name_round_trip(k: ActionKind, s: Seq<char>)
    ensures
        action_named(k.name()) == Some(k),
        action_named(s) == Some(k) ==> s == k.name(),
{
    reveal_strlit("kill");
    reveal_strlit("suspend");
    reveal_strlit("resume");
    reveal_strlit("set_priority");
    reveal_strlit("set_affinity");
    assert("kill"@ != "suspend"@ && "kill"@ != "resume"@ && "kill"@ != "set_priority"@
        && "kill"@ != "set_affinity"@) by {
        assert("kill"@.len() != "suspend"@.len());
        assert("kill"@[0] != "resume"@[0]);
        assert("kill"@.len() != "set_priority"@.len());
        assert("kill"@.len() != "set_affinity"@.len());
    }
    assert("suspend"@ != "resume"@ && "suspend"@ != "set_priority"@ && "suspend"@
        != "set_affinity"@) by {
        assert("suspend"@.len() != "resume"@.len());
        assert("suspend"@.len() != "set_priority"@.len());
        assert("suspend"@.len() != "set_affinity"@.len());
    }
    assert("resume"@ != "set_priority"@ && "resume"@ != "set_affinity"@) by {
        assert("resume"@.len() != "set_priority"@.len());
        assert("resume"@.len() != "set_affinity"@.len());
    }
    assert("set_priority"@ != "set_affinity"@) by {
        assert("set_priority"@[4] != "set_affinity"@[4]);
    }
}

/// An engine over the Windows backend reports that it can carry out nothing
/// and refuses every action as unsupported.
pub proof fn windows_engine_refuses_everything(
    engine: TaskmanEngine<WindowsBackend>,
    request: ActionRequest,
    result: TaskmanResult<ActionOutcome>,
    capabilities: CapabilityMatrix,
)
    requires
        call_ensures(WindowsBackend::run_action, (&engine.spec_backend(), request), result),
        call_ensures(WindowsBackend::capabilities, (&engine.spec_backend(),), capabilities),
    ensures
        capabilities.is_read_only(),
        result matches Err(TaskmanError::UnsupportedAction(_)),
{
}

/// When the Linux backend hands a priority request back, the outcome that
/// `priority_outcome` builds from the return code of the system call is an
/// answer of the backend to the original request.
pub proof fn priority_step_completes(
    request: ActionRequest,
    pid: i32,
    priority: i32,
    code: i32,
    os_error: Seq<char>,
    res: TaskmanResult<ActionOutcome>,
)
    requires
        needs_priority_call(request),
        pid == request.pid,
        request.priority == Some(priority),
        priority_answer(pid, priority, code, os_error, res),
    ensures
        linux_answers(request, res),
{
    assert(priority_answer(request.pid, request.priority->Some_0, code, os_error, res));
    assert(exists|c: i32, e: Seq<char>| priority_answer(request.pid, request.priority->Some_0, c, e, res));
}

/// Every success of the Linux backend reports `ok`, and every refusal is an
/// error of one of the kinds that the backend raises.
pub proof fn linux_successes_report_ok(request: ActionRequest, res: TaskmanResult<ActionOutcome>)
    requires
        linux_answers(request, res),
    ensures
        res matches Ok(o) ==> o.ok,
        res matches Err(e) ==> (e is InvalidInput || e is Platform),
{
}

proof fn cpu_orders_agree_below(keys: Seq<u32>, first: Seq<usize>, second: Seq<usize>, n: int)
    requires
        is_cpu_order(keys, first),
        is_cpu_order(keys, second),
        0 <= n <= first.len(),
    ensures
        forall|h: int| 0 <= h < n ==> first[h] == second[h],
    decreases n,
{
    if n > 0 {
        let i = n - 1;
        cpu_orders_agree_below(keys, first, second, i);
        let x = first[i];
        let y = second[i];
        assert(x < keys.len());
        assert(y < keys.len());
        assert(first.contains(y));
        assert(second.contains(x));
        let j = choose|j: int| 0 <= j < first.len() && first[j] == y;
        let k = choose|k: int| 0 <= k < second.len() && second[k] == x;
        if j < i {
            assert(second[j] == y);
            assert(ranks_before(keys, second[j], second[i]));
        }
        if k < i {
            assert(first[k] == x);
            assert(ranks_before(keys, first[k], first[i]));
        }
        if j > i && k > i {
            assert(ranks_before(keys, first[i], first[j]));
            assert(ranks_before(keys, second[i], second[k]));
        }
    }
}

/// The order of a snapshot is determined by the usages: two orders that both
/// list the processes by descending usage, stably, are the same.
pub proof fn cpu_order_is_unique(keys: Seq<u32>, first: Seq<usize>, second: Seq<usize>)
    requires
        is_cpu_order(keys, first),
        is_cpu_order(keys, second),
    ensures
        first == second,
{
    cpu_orders_agree_below(keys, first, second, first.len() as int);
    assert(first =~= second);
}

/// True when the 32-bit float pattern `x` has its sign bit set.
pub open spec fn sign_bit(x: u32) -> bool {
    x >= 0x8000_0000
}

/// The exponent and mantissa bits of the float pattern `x`.
pub open spec fn magnitude_bits(x: u32) -> int {
    if sign_bit(x) {
        x - 0x8000_0000
    } else {
        x as int
    }
}

/// True when the float pattern `x` encodes NaN.
pub open spec fn is_nan_pattern(x: u32) -> bool {
    magnitude_bits(x) > 0x7F80_0000
}

/// The order of IEEE-754 single-precision values, on their bit patterns: both
/// zeros are equal; among values of one sign the larger magnitude is larger
/// for positive values and smaller for negative ones; every negative value
/// lies below every positive one.
pub open spec fn float_below(a: u32, b: u32) -> bool {
    if magnitude_bits(a) == 0 && magnitude_bits(b) == 0 {
        false
    } else if !sign_bit(a) && !sign_bit(b) {
        magnitude_bits(a) < magnitude_bits(b)
    } else if sign_bit(a) && sign_bit(b) {
        magnitude_bits(b) < magnitude_bits(a)
    } else {
        sign_bit(a)
    }
}

/// The sort key of a usage follows the float order of the usages: for any two
/// usages that are not NaN, one key is below the other exactly when that
/// usage is the smaller float, and the keys are equal exactly when the usages
/// are equal.
pub proof fn cpu_key_follows_float_order(a: u32, b: u32)
    requires
        !is_nan_pattern(a),
        !is_nan_pattern(b),
    ensures
        float_below(a, b) <==> cpu_key(a) < cpu_key(b),
        (!float_below(a, b) && !float_below(b, a)) <==> cpu_key(a) == cpu_key(b),
{
}

/// In the order of a snapshot, a process never stands before one with a
/// strictly larger usage, and of two processes with equal usages the one
/// collected first stands first.
pub proof fn cpu_order_lists_larger_usage_first(keys: Seq<u32>, order: Seq<usize>, i: int, j: int)
    requires
        is_cpu_order(keys, order),
        0 <= i < j < order.len(),
        !is_nan_pattern(keys[order[i] as int]),
        !is_nan_pattern(keys[order[j] as int]),
    ensures
        !float_below(keys[order[i] as int], keys[order[j] as int]),
        !float_below(keys[order[j] as int], keys[order[i] as int]) ==> order[i] < order[j],
{
    assert(ranks_before(keys, order[i], order[j]));
    cpu_key_follows_float_order(keys[order[i] as int], keys[order[j] as int]);
}

/// An affinity request for a non-empty list of CPUs that fit in a CPU set is
/// answered from `sched_setaffinity` asked to pin `pid` to a set that holds
/// exactly the CPUs of the list; its success reports the list, and its
/// failure the error of the system.
pub proof fn affinity_pins_exactly_the_listed_cpus(
    pid: i32,
    cpus: Seq<usize>,
    res: TaskmanResult<ActionOutcome>,
)
    requires
        affinity_request_answer(pid, cpus, res),
        cpus.len() > 0,
        cpus_fit(cpus),
    ensures
        exists|applied: Result<(), i32>, pinned: Set<usize>|
            #[trigger] setaffinity_answers(pid, pinned, applied)
            && (forall|c: usize| pinned.contains(c) <==> exists|k: int| 0 <= k < cpus.len() && cpus[k] == c)
            && (applied is Ok ==> (res matches Ok(o) && o.ok && o.message@ == "set affinity="@
                + list_text(cpus) + " on pid="@ + int_text(pid as int)))
            && (applied is Err ==> (res matches Err(TaskmanError::Platform(m)) && m@
                == errno_text(applied->Err_0))),
{
    let applied = choose|applied: Result<(), i32>|
        #[trigger] setaffinity_answers(pid, cpus.to_set(), applied) && crate::linux::affinity_answer(
            pid,
            cpus,
            applied,
            res,
        );
    assert forall|c: usize| cpus.to_set().contains(c) <==> exists|k: int|
        0 <= k < cpus.len() && cpus[k] == c by {
        if cpus.to_set().contains(c) {
            assert(cpus.contains(c));
        }
        if exists|k: int| 0 <= k < cpus.len() && cpus[k] == c {
            let k = choose|k: int| 0 <= k < cpus.len() && cpus[k] == c;
            assert(cpus.contains(cpus[k]));
        }
    }
    assert(setaffinity_answers(pid, cpus.to_set(), applied));
}

/// The Linux backend answers a kill request from `kill` asked to send
/// `SIGKILL` to the requested process, and reports the signal by that name.
pub proof fn kill_sends_sigkill_to_the_requested_pid(
    request: ActionRequest,
    res: TaskmanResult<ActionOutcome>,
)
    requires
        linux_answers(request, res),
        request.action == ActionKind::Kill,
    ensures
        exists|sent: Result<(), i32>|
            #[trigger] kill_answers(request.pid, UnixSignal::Kill, sent)
            && (sent is Ok ==> (res matches Ok(o) && o.ok && o.message@ == "sent "@ + "SIGKILL"@
                + " to pid="@ + int_text(request.pid as int)))
            && (sent is Err ==> (res matches Err(TaskmanError::Platform(m)) && m@
                == errno_text(sent->Err_0))),
{
}

/// The Linux backend answers a suspend request from `kill` asked to send
/// `SIGSTOP` to the requested process, and a resume request from `kill`
/// asked to send `SIGCONT` to it: the two actions send different signals.
pub proof fn suspend_and_resume_send_stop_and_cont(
    request: ActionRequest,
    res: TaskmanResult<ActionOutcome>,
)
    requires
        linux_answers(request, res),
    ensures
        request.action == ActionKind::Suspend ==> exists|sent: Result<(), i32>|
            #[trigger] kill_answers(request.pid, UnixSignal::Stop, sent)
            && (sent is Ok ==> (res matches Ok(o) && o.ok && o.message@ == "sent "@ + "SIGSTOP"@
                + " to pid="@ + int_text(request.pid as int))),
        request.action == ActionKind::Resume ==> exists|sent: Result<(), i32>|
            #[trigger] kill_answers(request.pid, UnixSignal::Cont, sent)
            && (sent is Ok ==> (res matches Ok(o) && o.ok && o.message@ == "sent "@ + "SIGCONT"@
                + " to pid="@ + int_text(request.pid as int))),
        UnixSignal::Stop != UnixSignal::Cont,
{
}

/// An affinity request of the Linux backend with a non-empty list of CPUs
/// that fit in a CPU set pins the requested process to exactly those CPUs.
pub proof fn linux_affinity_targets_the_requested_pid(
    request: ActionRequest,
    res: TaskmanResult<ActionOutcome>,
)
    requires
        linux_answers(request, res),
        request.action == ActionKind::SetAffinity,
        request.affinity matches Some(cpus) && cpus@.len() > 0 && cpus_fit(cpus@),
    ensures
        exists|applied: Result<(), i32>, pinned: Set<usize>|
            #[trigger] setaffinity_answers(request.pid, pinned, applied) && (forall|c: usize|
                pinned.contains(c) <==> exists|k: int|
                    0 <= k < request.affinity.unwrap()@.len() && request.affinity.unwrap()@[k] == c),
{
    affinity_pins_exactly_the_listed_cpus(request.pid, request.affinity.unwrap()@, res);
}

/// The Python layer reports a success exactly for a success of the backend,
/// with the same outcome, and raises every error of the backend: failures of
/// the system and internal errors as `RuntimeError`, invalid input as
/// `ValueError`, refused permissions as `PermissionError`, unsupported
/// actions and missing processes as `TaskmanBridgeError`, with the carried
/// message (for a missing process, `process not found: pid=<pid>`).
pub proof fn backend_errors_are_raised_not_reported(
    answer: TaskmanResult<ActionOutcome>,
    res: Result<ActionOutcome, BridgeError>,
)
    requires
        reported_as(answer, res),
    ensures
        res is Ok <==> answer is Ok,
        answer matches Ok(o) ==> res == Ok::<ActionOutcome, BridgeError>(o),
        answer matches Err(TaskmanError::Platform(m)) ==> res matches Err(b) && b.kind
            == PyExceptionKind::RuntimeError && b.message@ == m@,
        answer matches Err(TaskmanError::Internal(m)) ==> res matches Err(b) && b.kind
            == PyExceptionKind::RuntimeError && b.message@ == m@,
        answer matches Err(TaskmanError::InvalidInput(m)) ==> res matches Err(b) && b.kind
            == PyExceptionKind::ValueError && b.message@ == m@,
        answer matches Err(TaskmanError::PermissionDenied(m)) ==> res matches Err(b) && b.kind
            == PyExceptionKind::PermissionError && b.message@ == m@,
        answer matches Err(TaskmanError::UnsupportedAction(m)) ==> res matches Err(b) && b.kind
            == PyExceptionKind::TaskmanBridgeError && b.message@ == m@,
        answer matches Err(TaskmanError::ProcessNotFound(pid)) ==> res matches Err(b) && b.kind
            == PyExceptionKind::TaskmanBridgeError && b.message@ == "process not found: pid="@
            + int_text(pid as int),
{
}

} // verus!
