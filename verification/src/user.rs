use vstd::prelude::*;

use crate::syscall::{
    spec_syscall, RawSyscall, SyscallRequest, SYSCALL_EXIT, SYSCALL_GET_TIME, SYSCALL_WRITE,
    SYSCALL_YIELD,
};

verus! {

// The user library's side of the system-call interface: how each call is
// put into registers before the `ecall`.

/// The system call that writes the `len` bytes at `buf` to `fd`.
pub fn write(fd: usize, buf: usize, len: usize) -> (r: RawSyscall)
    ensures
        r.id == SYSCALL_WRITE,
        r.args@ == seq![fd, buf, len],
{
    let r = RawSyscall { id: SYSCALL_WRITE, args: [fd, buf, len] };
    assert(r.args@ =~= seq![fd, buf, len]);
    r
}

/// The system call that ends the calling task with `exit_code`.
pub fn exit(exit_code: i32) -> (r: RawSyscall)
    ensures
        r.id == SYSCALL_EXIT,
        r.args@ == seq![exit_code as usize, 0usize, 0usize],
{
    let r = RawSyscall { id: SYSCALL_EXIT, args: [exit_code as usize, 0, 0] };
    assert(r.args@ =~= seq![exit_code as usize, 0usize, 0usize]);
    r
}

/// The system call that gives up the processor.
pub fn yield_now() -> (r: RawSyscall)
    ensures
        r.id == SYSCALL_YIELD,
        r.args@ == seq![0usize, 0usize, 0usize],
{
    let r = RawSyscall { id: SYSCALL_YIELD, args: [0, 0, 0] };
    assert(r.args@ =~= seq![0usize, 0usize, 0usize]);
    r
}

/// The system call that asks for the time.
pub fn get_time_call() -> (r: RawSyscall)
    ensures
        r.id == SYSCALL_GET_TIME,
        r.args@ == seq![0usize, 0usize, 0usize],
{
    let r = RawSyscall { id: SYSCALL_GET_TIME, args: [0, 0, 0] };
    assert(r.args@ =~= seq![0usize, 0usize, 0usize]);
    r
}

/// The time since boot, in microseconds, from what `get_time` returned.
pub fn get_time(ret: isize) -> (micros: u64)
    ensures
        micros == ret as u64,
{
    ret as u64
}

/// A wait for a given instant, as `sleep` performs it: it yields as long as
/// `get_time` returns an earlier instant.
#[derive(Clone, Copy, Debug)]
pub struct Sleep {
    wait_for: isize,
}

impl Sleep {
    /// The instant, in microseconds since boot, the wait lasts until.
    pub closed spec fn deadline(self) -> int {
        self.wait_for as int
    }

    /// Whether the sleeper must yield once more when `get_time` returns
    /// `now`.
    pub fn should_yield(&self, now: isize) -> (r: bool)
        ensures
            r == (now < self.deadline()),
    {
        now < self.wait_for
    }
}

/// Starts a sleep of `ms` milliseconds when `get_time` has returned `now`.
/// `ms` is converted to an `isize` as `as` does (wrapping above
/// `isize::MAX`); the product with 1000 and the deadline must fit in an
/// `isize`.
pub fn sleep(ms: u64, now: isize) -> (s: Sleep)
    requires
        isize::MIN <= (ms as isize) * 1000 <= isize::MAX,
        isize::MIN <= now + (ms as isize) * 1000 <= isize::MAX,
    ensures
        s.deadline() == now + (ms as isize) * 1000,
{
    let ms_i: isize = ms as isize;
    Sleep { wait_for: now + ms_i * 1000 }
}

/// What the kernel reads from the registers the user library fills: every
/// call comes out as the one that was put in.
pub proof fn lemma_syscall_round_trip(fd: usize, buf: usize, len: usize, code: i32)
    ensures
        spec_syscall(SYSCALL_WRITE, seq![fd, buf, len]) == (SyscallRequest::Write { fd, buf, len }),
        spec_syscall(SYSCALL_EXIT, seq![code as usize, 0usize, 0usize]) == (SyscallRequest::Exit {
            code,
        }),
        spec_syscall(SYSCALL_YIELD, seq![0usize, 0usize, 0usize]) == SyscallRequest::Yield,
        spec_syscall(SYSCALL_GET_TIME, seq![0usize, 0usize, 0usize]) == SyscallRequest::GetTime,
{
    let c = code as usize;
    assert(c as i32 == code) by (bit_vector)
        requires
            c == code as usize,
    ;
}

/// The time the user library reads back is the kernel's time since boot,
/// as long as that fits in an `isize`.
pub proof fn lemma_get_time_round_trip(micros: u64)
    requires
        micros <= isize::MAX,
    ensures
        ((micros as isize) as u64) == micros,
{
}

} // verus!
