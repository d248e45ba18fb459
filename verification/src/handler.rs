use vstd::prelude::*;

use crate::syscall::{
    spec_syscall, sys_exit, sys_get_time, sys_write, sys_yield, syscall, SyscallRequest, FD_STDOUT,
    SYSCALL_EXIT, SYSCALL_GET_TIME, SYSCALL_WRITE, SYSCALL_YIELD,
};
use crate::task::TaskStatus;
use crate::tasks::{
    calc_kernel_time, calc_user_time, report_of, suspend_current_then_run_next, ManagerView,
    Schedule, TaskManager, TaskReport,
};
use crate::timer::Time;
use crate::trap::{
    kernel_trap_action, spec_user_trap_action, user_trap_action, Exception, Interrupt,
    KernelTrapAction, Trap,
    TrapContext, UserTrapAction, KILLED_EXIT_CODE,
};
use vstd::utf8::valid_utf8;

verus! {

// How the kernel serves a trap. A trap from user mode goes through three
// steps: `user_trap_handler` on entry, `user_trap_continue` to serve it, and
// `user_trap_return` before the task resumes. Between the last two the
// caller performs what the outcome asks for: printing, re-arming the timer,
// switching to another task.

/// What a trap from user mode turned out to be, once entered.
#[derive(Clone, Copy, Debug, PartialEq, Eq, Structural)]
pub enum UserTrapEntry {
    /// A system call, already stepped over.
    Syscall(SyscallRequest),
    /// The end of the time slice.
    Preempt,
    /// A fault or an unsupported trap that kills the task; `action` says
    /// which.
    Kill { action: UserTrapAction },
}

/// What the caller is to do after a trap has been served.
#[derive(Clone, Copy, Debug, PartialEq, Eq, Structural)]
pub enum TrapOutcome {
    /// Return to the task; the system call gives back `ret`.
    Resume { ret: isize },
    /// Re-arm the timer first if `rearm_timer`; then perform `schedule`.
    /// When the task runs again it resumes, with `resume_with` as the system
    /// call's result if there is one.
    Switch { schedule: Schedule, rearm_timer: bool, resume_with: Option<isize> },
    /// The task has exited with `code`: report it and perform `schedule`;
    /// the task never runs again.
    Exit { code: i32, report: TaskReport, schedule: Schedule },
}

/// What a trap from user mode is, given its cause and the registers the
/// task trapped with.
pub open spec fn spec_user_entry(cause: Trap, x: Seq<usize>) -> UserTrapEntry {
    match spec_user_trap_action(cause) {
        UserTrapAction::Syscall => UserTrapEntry::Syscall(
            spec_syscall(x[17], seq![x[10], x[11], x[12]]),
        ),
        UserTrapAction::Preempt => UserTrapEntry::Preempt,
        action => UserTrapEntry::Kill { action },
    }
}

/// An environment call from user mode is decoded from the registers in
/// order: the call number from `a7` (`x17`), and the arguments from `a0`,
/// `a1`, `a2` (`x10`, `x11`, `x12`) as the user library fills them.
pub proof fn lemma_user_entry_registers(x: Seq<usize>)
    requires
        x.len() == 32,
    ensures
        ({
            let e = spec_user_entry(Trap::Exception(Exception::UserEnvCall), x);
            &&& x[17] == SYSCALL_WRITE ==> e == UserTrapEntry::Syscall(
                SyscallRequest::Write { fd: x[10], buf: x[11], len: x[12] },
            )
            &&& x[17] == SYSCALL_EXIT ==> e == UserTrapEntry::Syscall(
                SyscallRequest::Exit { code: x[10] as i32 },
            )
            &&& x[17] == SYSCALL_YIELD ==> e == UserTrapEntry::Syscall(SyscallRequest::Yield)
            &&& x[17] == SYSCALL_GET_TIME ==> e == UserTrapEntry::Syscall(SyscallRequest::GetTime)
            &&& x[17] != SYSCALL_WRITE && x[17] != SYSCALL_EXIT && x[17] != SYSCALL_YIELD && x[17]
                != SYSCALL_GET_TIME ==> e == UserTrapEntry::Syscall(
                SyscallRequest::Unsupported { id: x[17] },
            )
        }),
{
}

/// A `write(fd, buf, len)` that the user library puts in the registers
/// reaches the kernel as that same write.
pub proof fn lemma_user_write_reaches_kernel(x: Seq<usize>, fd: usize, buf: usize, len: usize)
    requires
        x.len() == 32,
        x[17] == SYSCALL_WRITE,
        x[10] == fd,
        x[11] == buf,
        x[12] == len,
    ensures
        spec_user_entry(Trap::Exception(Exception::UserEnvCall), x) == UserTrapEntry::Syscall(
            SyscallRequest::Write { fd, buf, len },
        ),
{
    lemma_user_entry_registers(x);
}

/// The current task exits with `code` at instant `now`.
pub open spec fn spec_exit(v: ManagerView, code: i32, now: nat) -> (ManagerView, TrapOutcome) {
    let m = v.mark_current(TaskStatus::Exit, now);
    (m.scheduled(), TrapOutcome::Exit { code, report: report_of(m), schedule: m.schedule() })
}

/// The current task gives up the processor at instant `now`.
pub open spec fn spec_suspend(v: ManagerView, now: nat, rearm_timer: bool, ret: Option<isize>) -> (
    ManagerView,
    TrapOutcome,
) {
    let m = v.mark_current(TaskStatus::Ready, now);
    (m.scheduled(), TrapOutcome::Switch { schedule: m.schedule(), rearm_timer, resume_with: ret })
}

/// Serving the system call `req` at instant `now`; `bytes` are the bytes a
/// write to the console passes.
pub open spec fn spec_serve_syscall(
    v: ManagerView,
    req: SyscallRequest,
    bytes: Seq<u8>,
    now: nat,
) -> (ManagerView, TrapOutcome) {
    match req {
        SyscallRequest::Write { fd, .. } => (
            v,
            TrapOutcome::Resume {
                ret: if fd == FD_STDOUT {
                    bytes.len() as isize
                } else {
                    -1isize
                },
            },
        ),
        SyscallRequest::Exit { code } => spec_exit(v, code, now),
        SyscallRequest::Yield => spec_suspend(v, now, false, Some(0)),
        SyscallRequest::GetTime => (v, TrapOutcome::Resume { ret: now as isize }),
        SyscallRequest::Unsupported { .. } => spec_exit(v, KILLED_EXIT_CODE, now),
    }
}

/// Serving an entered trap at instant `now`.
pub open spec fn spec_user_trap_continue(
    v: ManagerView,
    entry: UserTrapEntry,
    bytes: Seq<u8>,
    now: nat,
) -> (ManagerView, TrapOutcome) {
    match entry {
        UserTrapEntry::Syscall(req) => spec_serve_syscall(v, req, bytes, now),
        UserTrapEntry::Preempt => spec_suspend(v, now, true, None),
        UserTrapEntry::Kill { .. } => spec_exit(v, KILLED_EXIT_CODE, now),
    }
}

/// What `bytes` must be for `req`: a write to the console passes exactly
/// its `len` bytes, which must be UTF-8.
pub open spec fn bytes_fit(req: SyscallRequest, bytes: Seq<u8>) -> bool {
    match req {
        SyscallRequest::Write { fd, len, .. } => fd == FD_STDOUT ==> bytes.len() == len && valid_utf8(
            bytes,
        ),
        _ => true,
    }
}

/// The first step of a trap from user mode, at instant `now`: the time since
/// the last accounting instant is charged to the task as user time; a system
/// call is stepped over (`sepc` moves on by 4) and decoded from the
/// registers; any other trap leaves the frame as it was.
pub fn user_trap_handler(tm: &mut TaskManager, cx: &mut TrapContext, cause: Trap, now: Time) -> (r:
    UserTrapEntry)
    requires
        old(tm)@.wf(),
        old(tm)@.time <= now.micros(),
        spec_user_trap_action(cause) == UserTrapAction::Syscall ==> old(cx).sepc + 4 <= usize::MAX,
    ensures
        final(tm)@ == old(tm)@.charge_user(now.micros()),
        final(tm)@.wf(),
        r == spec_user_entry(cause, old(cx).x@),
        cause == Trap::Exception(Exception::UserEnvCall) && old(cx).x@[17] == SYSCALL_WRITE ==> r
            == UserTrapEntry::Syscall(
            SyscallRequest::Write { fd: old(cx).x@[10], buf: old(cx).x@[11], len: old(cx).x@[12] },
        ),
        cause == Trap::Exception(Exception::UserEnvCall) && old(cx).x@[17] == SYSCALL_EXIT ==> r
            == UserTrapEntry::Syscall(SyscallRequest::Exit { code: old(cx).x@[10] as i32 }),
        final(cx).x == old(cx).x,
        final(cx).sstatus == old(cx).sstatus,
        final(cx).sepc == if r is Syscall {
            old(cx).sepc + 4
        } else {
            old(cx).sepc as int
        },
{
    proof {
        lemma_user_entry_registers(old(cx).x@);
    }
    calc_user_time(tm, now);
    match user_trap_action(cause) {
        UserTrapAction::Syscall => {
            let (id, args) = cx.take_syscall();
            UserTrapEntry::Syscall(syscall(id, args))
        },
        UserTrapAction::Preempt => UserTrapEntry::Preempt,
        action => UserTrapEntry::Kill { action },
    }
}

/// Serves the system call `req` at instant `now`: a write gives back how
/// many bytes reach the console (-1 for another descriptor), `get_time` the
/// microseconds since boot; `yield` suspends the task, to give back 0 when it
/// runs again; `exit` and an unknown call end the task, with the given code
/// and with -1.
pub fn serve_syscall(tm: &mut TaskManager, req: SyscallRequest, bytes: &[u8], now: Time) -> (r:
    TrapOutcome)
    requires
        old(tm)@.wf(),
        old(tm)@.time <= now.micros(),
        bytes_fit(req, bytes@),
    ensures
        (final(tm)@, r) == spec_serve_syscall(old(tm)@, req, bytes@, now.micros()),
        final(tm)@.wf(),
{
    match req {
        SyscallRequest::Write { fd, .. } => TrapOutcome::Resume { ret: sys_write(fd, bytes) },
        SyscallRequest::Exit { code } => {
            let (report, schedule) = sys_exit(tm, code, now);
            TrapOutcome::Exit { code, report, schedule }
        },
        SyscallRequest::Yield => {
            let (ret, schedule) = sys_yield(tm, now);
            TrapOutcome::Switch { schedule, rearm_timer: false, resume_with: Some(ret) }
        },
        SyscallRequest::GetTime => TrapOutcome::Resume { ret: sys_get_time(now) },
        SyscallRequest::Unsupported { .. } => {
            let (report, schedule) = sys_exit(tm, KILLED_EXIT_CODE, now);
            TrapOutcome::Exit { code: KILLED_EXIT_CODE, report, schedule }
        },
    }
}

/// The second step of a trap from user mode, at instant `now`: a system call
/// is served; at the end of a time slice the task is suspended, and the
/// timer is to be re-armed; a fault or unsupported trap ends the task with
/// exit code -1.
pub fn user_trap_continue(tm: &mut TaskManager, entry: UserTrapEntry, bytes: &[u8], now: Time) -> (r:
    TrapOutcome)
    requires
        old(tm)@.wf(),
        old(tm)@.time <= now.micros(),
        entry matches UserTrapEntry::Syscall(req) ==> bytes_fit(req, bytes@),
    ensures
        (final(tm)@, r) == spec_user_trap_continue(old(tm)@, entry, bytes@, now.micros()),
        final(tm)@.wf(),
{
    match entry {
        UserTrapEntry::Syscall(req) => serve_syscall(tm, req, bytes, now),
        UserTrapEntry::Preempt => {
            let schedule = suspend_current_then_run_next(tm, now);
            TrapOutcome::Switch { schedule, rearm_timer: true, resume_with: None }
        },
        UserTrapEntry::Kill { .. } => {
            let (report, schedule) = sys_exit(tm, KILLED_EXIT_CODE, now);
            TrapOutcome::Exit { code: KILLED_EXIT_CODE, report, schedule }
        },
    }
}

/// The last step of a trap from user mode, at instant `now`, when the task
/// is about to resume: a system call's result `ret` goes into `a0` (`x10`),
/// and the time since the last accounting instant is charged to the task as
/// kernel time.
pub fn user_trap_return(tm: &mut TaskManager, cx: &mut TrapContext, ret: Option<isize>, now: Time)
    requires
        old(tm)@.wf(),
        old(tm)@.time <= now.micros(),
    ensures
        final(tm)@ == old(tm)@.charge_kernel(now.micros()),
        final(tm)@.wf(),
        final(cx).x@ == match ret {
            Some(v) => old(cx).x@.update(10, v as usize),
            None => old(cx).x@,
        },
        final(cx).sepc == old(cx).sepc,
        final(cx).sstatus == old(cx).sstatus,
{
    if let Some(v) = ret {
        cx.set_syscall_return(v);
    }
    calc_kernel_time(tm, now);
}

/// What to do after a trap taken while the kernel ran.
#[derive(Clone, Copy, Debug, PartialEq, Eq, Structural)]
pub enum KernelTrapOutcome {
    /// The first timer interrupt seen in the kernel: report it once, go on.
    FirstTimer,
    /// A later timer interrupt: go on silently.
    Timer,
    /// The trap is not supported: the current task has exited with code -1;
    /// report it and perform `schedule`.
    Exit { report: TaskReport, schedule: Schedule },
}

/// Serves a trap taken while the kernel ran, at instant `now`: a timer
/// interrupt is reported the first time and otherwise ignored; anything else
/// ends the current task with exit code -1.
pub fn kernel_trap_handler(tm: &mut TaskManager, cause: Trap, timer_seen: &mut bool, now: Time) -> (r:
    KernelTrapOutcome)
    requires
        old(tm)@.wf(),
        old(tm)@.time <= now.micros(),
    ensures
        final(tm)@.wf(),
        cause == Trap::Interrupt(Interrupt::SupervisorTimer) ==> {
            &&& *final(timer_seen)
            &&& final(tm)@ == old(tm)@
            &&& r == if *old(timer_seen) {
                KernelTrapOutcome::Timer
            } else {
                KernelTrapOutcome::FirstTimer
            }
        },
        cause != Trap::Interrupt(Interrupt::SupervisorTimer) ==> {
            let (v, out) = spec_exit(old(tm)@, KILLED_EXIT_CODE, now.micros());
            &&& *final(timer_seen) == *old(timer_seen)
            &&& final(tm)@ == v
            &&& out matches TrapOutcome::Exit { report, schedule, .. }
            &&& r == (KernelTrapOutcome::Exit { report, schedule })
        },
{
    match kernel_trap_action(cause, timer_seen) {
        KernelTrapAction::FirstTimer => KernelTrapOutcome::FirstTimer,
        KernelTrapAction::Timer => KernelTrapOutcome::Timer,
        KernelTrapAction::Kill => {
            let (report, schedule) = sys_exit(tm, KILLED_EXIT_CODE, now);
            KernelTrapOutcome::Exit { report, schedule }
        },
    }
}

} // verus!
