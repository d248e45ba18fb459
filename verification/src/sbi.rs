use vstd::prelude::*;

verus! {

// The kernel's requests to the supervisor binary interface (SBI). Each
// function says which call to make; the `ecall` itself is the caller's.

/// Legacy extension: write a character to the console.
pub const SBI_CONSOLE_PUTCHAR: usize = 1;

/// The system reset extension ("SRST").
pub const SRST_EXTENSION: usize = 0x53525354;

/// The reset function of the system reset extension.
pub const SBI_SHUTDOWN: usize = 0;

/// An SBI call: extension id in `a7`, function id in `a6`, arguments in
/// `a0`..`a2`.
#[derive(Clone, Copy, Debug)]
pub struct SbiCall {
    pub eid: usize,
    pub fid: usize,
    pub args: [usize; 3],
}

/// The call that prints the character `c` on the console.
pub fn console_put_char(c: usize) -> (r: SbiCall)
    ensures
        r.eid == SBI_CONSOLE_PUTCHAR,
        r.fid == 0,
        r.args@ == seq![c, 0usize, 0usize],
{
    let r = SbiCall { eid: SBI_CONSOLE_PUTCHAR, fid: 0, args: [c, 0, 0] };
    assert(r.args@ =~= seq![c, 0usize, 0usize]);
    r
}

/// The call that powers the machine off.
pub fn shutdown() -> (r: SbiCall)
    ensures
        r.eid == SRST_EXTENSION,
        r.fid == SBI_SHUTDOWN,
        r.args@ == seq![0usize, 0usize, 0usize],
{
    let r = SbiCall { eid: SRST_EXTENSION, fid: SBI_SHUTDOWN, args: [0, 0, 0] };
    assert(r.args@ =~= seq![0usize, 0usize, 0usize]);
    r
}

} // verus!
