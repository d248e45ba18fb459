use vstd::prelude::*;

use crate::tasks::{
    exit_current_then_run_next, report_of, suspend_current_then_run_next, Schedule, TaskManager,
    TaskReport,
};
use crate::task::TaskStatus;
use crate::timer::Time;
use vstd::utf8::valid_utf8;

verus! {

/// `write(fd, buf, len)`.
pub const SYSCALL_WRITE: usize = 64;

/// `exit(code)`.
pub const SYSCALL_EXIT: usize = 93;

/// `yield()`.
pub const SYSCALL_YIELD: usize = 124;

/// `get_time()`.
pub const SYSCALL_GET_TIME: usize = 169;

/// The only file descriptor that can be written: the console.
pub const FD_STDOUT: usize = 1;

/// A system call as the trap frame carries it: its number and three
/// arguments.
#[derive(Clone, Copy, Debug)]
pub struct RawSyscall {
    pub id: usize,
    pub args: [usize; 3],
}

/// A decoded system call.
#[derive(Clone, Copy, Debug, PartialEq, Eq, Structural)]
pub enum SyscallRequest {
    /// Write `len` bytes at user address `buf` to file descriptor `fd`.
    Write { fd: usize, buf: usize, len: usize },
    /// End the calling task with exit code `code`.
    Exit { code: i32 },
    /// Give up the processor.
    Yield,
    /// Ask for the time since boot in microseconds.
    GetTime,
    /// A number the kernel does not know: the caller is killed with exit
    /// code -1.
    Unsupported { id: usize },
}

/// What the system call `id` with arguments `args` asks for.
pub open spec fn spec_syscall(id: usize, args: Seq<usize>) -> SyscallRequest {
    if id == SYSCALL_EXIT {
        SyscallRequest::Exit { code: args[0] as i32 }
    } else if id == SYSCALL_WRITE {
        SyscallRequest::Write { fd: args[0], buf: args[1], len: args[2] }
    } else if id == SYSCALL_YIELD {
        SyscallRequest::Yield
    } else if id == SYSCALL_GET_TIME {
        SyscallRequest::GetTime
    } else {
        SyscallRequest::Unsupported { id }
    }
}

/// Decodes the system call `id` with arguments `args`.
pub fn syscall(id: usize, args: [usize; 3]) -> (r: SyscallRequest)
    ensures
        r == spec_syscall(id, args@),
        id == SYSCALL_WRITE ==> r == (SyscallRequest::Write {
            fd: args@[0],
            buf: args@[1],
            len: args@[2],
        }),
        id == SYSCALL_EXIT ==> r == (SyscallRequest::Exit { code: args@[0] as i32 }),
{
    if id == SYSCALL_EXIT {
        SyscallRequest::Exit { code: args[0] as i32 }
    } else if id == SYSCALL_WRITE {
        SyscallRequest::Write { fd: args[0], buf: args[1], len: args[2] }
    } else if id == SYSCALL_YIELD {
        SyscallRequest::Yield
    } else if id == SYSCALL_GET_TIME {
        SyscallRequest::GetTime
    } else {
        SyscallRequest::Unsupported { id }
    }
}

/// The result of writing `bytes` to `fd`: all of them are written when `fd`
/// is the console, and the call fails with -1 on any other descriptor. The
/// caller prints the bytes on the console in the first case; bytes that are
/// not UTF-8 cannot be printed there, and the kernel stops on them.
pub fn sys_write(fd: usize, bytes: &[u8]) -> (r: isize)
    requires
        fd == FD_STDOUT ==> valid_utf8(bytes@),
    ensures
        fd == FD_STDOUT ==> r == bytes.len() as isize,
        fd != FD_STDOUT ==> r == -1,
{
    if fd == FD_STDOUT {
        bytes.len() as isize
    } else {
        -1
    }
}

/// `exit(code)` at instant `now`: the current task is marked exited and the
/// next task chosen. Returns the exited task's report and the scheduling
/// decision; `code` is only reported.
pub fn sys_exit(tm: &mut TaskManager, code: i32, now: Time) -> (r: (TaskReport, Schedule))
    requires
        old(tm)@.wf(),
        old(tm)@.time <= now.micros(),
    ensures
        ({
            let m = old(tm)@.mark_current(TaskStatus::Exit, now.micros());
            &&& final(tm)@ == m.scheduled()
            &&& r.1 == m.schedule()
            &&& r.0 == report_of(m)
        }),
        final(tm)@.wf(),
{
    exit_current_then_run_next(tm, now)
}

/// `yield()` at instant `now`: the current task becomes ready again and the
/// next task is chosen. Returns the value the call gives back once the task
/// runs again, 0, and the scheduling decision.
pub fn sys_yield(tm: &mut TaskManager, now: Time) -> (r: (isize, Schedule))
    requires
        old(tm)@.wf(),
        old(tm)@.time <= now.micros(),
    ensures
        r.0 == 0,
        final(tm)@ == old(tm)@.mark_current(TaskStatus::Ready, now.micros()).scheduled(),
        r.1 == old(tm)@.mark_current(TaskStatus::Ready, now.micros()).schedule(),
        final(tm)@.wf(),
{
    let next = suspend_current_then_run_next(tm, now);
    (0, next)
}

/// `get_time()` at instant `now`: the microseconds since boot.
pub fn sys_get_time(now: Time) -> (r: isize)
    ensures
        r == now.micros() as isize,
{
    now.as_micros() as isize
}

} // verus!
