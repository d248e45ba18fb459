use vstd::prelude::*;

use riscv::register::scause::Exception as RvException;
use riscv::register::scause::Interrupt as RvInterrupt;

verus! {

/// The interrupt causes of the `scause` register.
#[derive(Clone, Copy, Debug, PartialEq, Eq, Structural)]
pub enum Interrupt {
    UserSoft,
    SupervisorSoft,
    UserTimer,
    SupervisorTimer,
    UserExternal,
    SupervisorExternal,
    Unknown,
}

/// The exception causes of the `scause` register.
#[derive(Clone, Copy, Debug, PartialEq, Eq, Structural)]
pub enum Exception {
    InstructionMisaligned,
    InstructionFault,
    IllegalInstruction,
    Breakpoint,
    LoadFault,
    StoreMisaligned,
    StoreFault,
    UserEnvCall,
    InstructionPageFault,
    LoadPageFault,
    StorePageFault,
    Unknown,
}

/// Why the processor trapped into the kernel.
#[derive(Clone, Copy, Debug, PartialEq, Eq, Structural)]
pub enum Trap {
    Interrupt(Interrupt),
    Exception(Exception),
}

/// The interrupt with code `nr`.
pub open spec fn interrupt_of(nr: usize) -> Interrupt {
    if nr == 0 {
        Interrupt::UserSoft
    } else if nr == 1 {
        Interrupt::SupervisorSoft
    } else if nr == 4 {
        Interrupt::UserTimer
    } else if nr == 5 {
        Interrupt::SupervisorTimer
    } else if nr == 8 {
        Interrupt::UserExternal
    } else if nr == 9 {
        Interrupt::SupervisorExternal
    } else {
        Interrupt::Unknown
    }
}

/// The exception with code `nr`.
pub open spec fn exception_of(nr: usize) -> Exception {
    if nr == 0 {
        Exception::InstructionMisaligned
    } else if nr == 1 {
        Exception::InstructionFault
    } else if nr == 2 {
        Exception::IllegalInstruction
    } else if nr == 3 {
        Exception::Breakpoint
    } else if nr == 5 {
        Exception::LoadFault
    } else if nr == 6 {
        Exception::StoreMisaligned
    } else if nr == 7 {
        Exception::StoreFault
    } else if nr == 8 {
        Exception::UserEnvCall
    } else if nr == 12 {
        Exception::InstructionPageFault
    } else if nr == 13 {
        Exception::LoadPageFault
    } else if nr == 15 {
        Exception::StorePageFault
    } else {
        Exception::Unknown
    }
}

/// Decodes an interrupt code with `riscv::register::scause::Interrupt::from`,
/// which the `riscv` crate defines as the table of `interrupt_of`: codes 0, 1,
/// 4, 5, 8 and 9 name the six interrupts, every other code `Unknown`.
#[verifier::external_body]
fn interrupt_from(nr: usize) -> (r: Interrupt)
    ensures
        r == interrupt_of(nr),
{
    match RvInterrupt::from(nr) {
        RvInterrupt::UserSoft => Interrupt::UserSoft,
        RvInterrupt::SupervisorSoft => Interrupt::SupervisorSoft,
        RvInterrupt::UserTimer => Interrupt::UserTimer,
        RvInterrupt::SupervisorTimer => Interrupt::SupervisorTimer,
        RvInterrupt::UserExternal => Interrupt::UserExternal,
        RvInterrupt::SupervisorExternal => Interrupt::SupervisorExternal,
        RvInterrupt::Unknown => Interrupt::Unknown,
    }
}

/// Decodes an exception code with `riscv::register::scause::Exception::from`,
/// which the `riscv` crate defines as the table of `exception_of`: codes 0-3,
/// 5-8, 12, 13 and 15 name the eleven exceptions, every other code `Unknown`.
#[verifier::external_body]
fn exception_from(nr: usize) -> (r: Exception)
    ensures
        r == exception_of(nr),
{
    match RvException::from(nr) {
        RvException::InstructionMisaligned => Exception::InstructionMisaligned,
        RvException::InstructionFault => Exception::InstructionFault,
        RvException::IllegalInstruction => Exception::IllegalInstruction,
        RvException::Breakpoint => Exception::Breakpoint,
        RvException::LoadFault => Exception::LoadFault,
        RvException::StoreMisaligned => Exception::StoreMisaligned,
        RvException::StoreFault => Exception::StoreFault,
        RvException::UserEnvCall => Exception::UserEnvCall,
        RvException::InstructionPageFault => Exception::InstructionPageFault,
        RvException::LoadPageFault => Exception::LoadPageFault,
        RvException::StorePageFault => Exception::StorePageFault,
        RvException::Unknown => Exception::Unknown,
    }
}

/// The value of the interrupt bit, the most significant bit of `scause`.
pub open spec fn interrupt_bit() -> int {
    usize::MAX / 2 + 1
}

/// The cause that the raw value `bits` of `scause` records: an interrupt
/// when the most significant bit is set, an exception otherwise; the rest of
/// the bits give the code.
pub open spec fn spec_trap_cause(bits: usize) -> Trap {
    if bits >= interrupt_bit() {
        Trap::Interrupt(interrupt_of((bits - interrupt_bit()) as usize))
    } else {
        Trap::Exception(exception_of(bits))
    }
}

/// Decodes the raw value of the `scause` register.
pub fn trap_cause(scause_bits: usize) -> (t: Trap)
    ensures
        t == spec_trap_cause(scause_bits),
{
    let bit: usize = usize::MAX / 2 + 1;
    if scause_bits >= bit {
        Trap::Interrupt(interrupt_from(scause_bits - bit))
    } else {
        Trap::Exception(exception_from(scause_bits))
    }
}

/// What to do with a trap taken while the kernel itself ran.
#[derive(Clone, Copy, Debug, PartialEq, Eq, Structural)]
pub enum KernelTrapAction {
    /// The first timer interrupt seen in the kernel: report it once, go on.
    FirstTimer,
    /// A later timer interrupt: go on silently.
    Timer,
    /// Anything else is not supported: kill the current task with exit code -1.
    Kill,
}

/// Decides what a trap taken in the kernel leads to; `timer_seen` records
/// whether a timer interrupt has been reported before, and is set when one
/// is.
pub fn kernel_trap_action(cause: Trap, timer_seen: &mut bool) -> (r: KernelTrapAction)
    ensures
        cause == Trap::Interrupt(Interrupt::SupervisorTimer) ==> {
            &&& *final(timer_seen)
            &&& r == if *old(timer_seen) {
                KernelTrapAction::Timer
            } else {
                KernelTrapAction::FirstTimer
            }
        },
        cause != Trap::Interrupt(Interrupt::SupervisorTimer) ==> {
            &&& *final(timer_seen) == *old(timer_seen)
            &&& r == KernelTrapAction::Kill
        },
{
    match cause {
        Trap::Interrupt(Interrupt::SupervisorTimer) => {
            if !*timer_seen {
                *timer_seen = true;
                KernelTrapAction::FirstTimer
            } else {
                KernelTrapAction::Timer
            }
        },
        _ => KernelTrapAction::Kill,
    }
}

/// What to do with a trap taken while a task ran in user mode.
#[derive(Clone, Copy, Debug, PartialEq, Eq, Structural)]
pub enum UserTrapAction {
    /// A system call: step over the `ecall` and serve it.
    Syscall,
    /// An illegal instruction: kill the task with exit code -1.
    KillIllegalInstruction,
    /// A store fault or store page fault: kill the task with exit code -1.
    KillStoreFault,
    /// The time slice is over: arm the timer and switch to the next task.
    Preempt,
    /// Anything else is not supported: kill the task with exit code -1.
    KillUnsupported,
}

/// What a trap taken in user mode leads to.
pub open spec fn spec_user_trap_action(cause: Trap) -> UserTrapAction {
    match cause {
        Trap::Exception(Exception::UserEnvCall) => UserTrapAction::Syscall,
        Trap::Exception(Exception::IllegalInstruction) => UserTrapAction::KillIllegalInstruction,
        Trap::Exception(Exception::StorePageFault) => UserTrapAction::KillStoreFault,
        Trap::Exception(Exception::StoreFault) => UserTrapAction::KillStoreFault,
        Trap::Interrupt(Interrupt::SupervisorTimer) => UserTrapAction::Preempt,
        _ => UserTrapAction::KillUnsupported,
    }
}

/// A trap from user mode is a system call exactly when it is an
/// environment call from user mode, and preempts the task exactly on the
/// supervisor timer interrupt; every other cause kills the task.
pub proof fn lemma_user_trap_action(cause: Trap)
    ensures
        spec_user_trap_action(cause) == UserTrapAction::Syscall <==> cause == Trap::Exception(
            Exception::UserEnvCall,
        ),
        spec_user_trap_action(cause) == UserTrapAction::Preempt <==> cause == Trap::Interrupt(
            Interrupt::SupervisorTimer,
        ),
        cause != Trap::Exception(Exception::UserEnvCall) && cause != Trap::Interrupt(
            Interrupt::SupervisorTimer,
        ) ==> {
            ||| spec_user_trap_action(cause) == UserTrapAction::KillIllegalInstruction
            ||| spec_user_trap_action(cause) == UserTrapAction::KillStoreFault
            ||| spec_user_trap_action(cause) == UserTrapAction::KillUnsupported
        },
        spec_user_trap_action(cause) == UserTrapAction::KillIllegalInstruction <==> cause
            == Trap::Exception(Exception::IllegalInstruction),
        spec_user_trap_action(cause) == UserTrapAction::KillStoreFault <==> (cause == Trap::Exception(
            Exception::StoreFault,
        ) || cause == Trap::Exception(Exception::StorePageFault)),
{
}

/// Decides what a trap taken in user mode leads to.
pub fn user_trap_action(cause: Trap) -> (r: UserTrapAction)
    ensures
        r == spec_user_trap_action(cause),
        r == UserTrapAction::Syscall <==> cause == Trap::Exception(Exception::UserEnvCall),
        r == UserTrapAction::Preempt <==> cause == Trap::Interrupt(Interrupt::SupervisorTimer),
{
    proof {
        lemma_user_trap_action(cause);
    }
    match cause {
        Trap::Exception(Exception::UserEnvCall) => UserTrapAction::Syscall,
        Trap::Exception(Exception::IllegalInstruction) => UserTrapAction::KillIllegalInstruction,
        Trap::Exception(Exception::StorePageFault) => UserTrapAction::KillStoreFault,
        Trap::Exception(Exception::StoreFault) => UserTrapAction::KillStoreFault,
        Trap::Interrupt(Interrupt::SupervisorTimer) => UserTrapAction::Preempt,
        _ => UserTrapAction::KillUnsupported,
    }
}

/// The exit code of a task killed by a trap.
pub const KILLED_EXIT_CODE: i32 = -1;

/// The registers saved when a task traps into the kernel.
#[derive(Clone, Copy, Debug)]
pub struct TrapContext {
    /// The general-purpose registers `x0`..`x31`.
    pub x: [usize; 32],
    /// The raw value of `sstatus`.
    pub sstatus: usize,
    /// The address the task resumes at.
    pub sepc: usize,
}

/// The `SPP` bit of `sstatus`: set when the trap came from supervisor mode.
pub const SSTATUS_SPP: usize = 0x100;

impl TrapContext {
    /// The frame from which a task starts at `entry` in user mode with the
    /// stack pointer `sp`: all registers zero but `sp` (`x2`), and the current
    /// `sstatus` with `SPP` cleared, so that returning from the trap enters
    /// user mode.
    pub fn init(entry: usize, sp: usize, sstatus: usize) -> (cx: Self)
        ensures
            cx.sepc == entry,
            cx.sstatus == sstatus & !SSTATUS_SPP,
            cx.x@ == Seq::new(32, |i: int| 0usize).update(2, sp),
    {
        let mut x = [0usize; 32];
        x[2] = sp;
        let cx = TrapContext { x, sstatus: sstatus & !SSTATUS_SPP, sepc: entry };
        assert(cx.x@ =~= Seq::new(32, |i: int| 0usize).update(2, sp));
        cx
    }

    /// Steps over the `ecall` that trapped and returns the system call it
    /// asks for: the number in `a7` (`x17`) and the arguments in `a0`..`a2`
    /// (`x10`..`x12`).
    pub fn take_syscall(&mut self) -> (r: (usize, [usize; 3]))
        requires
            old(self).sepc + 4 <= usize::MAX,
        ensures
            final(self).sepc == old(self).sepc + 4,
            final(self).x == old(self).x,
            final(self).sstatus == old(self).sstatus,
            r.0 == old(self).x@[17],
            r.1@ == seq![old(self).x@[10], old(self).x@[11], old(self).x@[12]],
    {
        self.sepc = self.sepc + 4;
        let args = [self.x[10], self.x[11], self.x[12]];
        assert(args@ =~= seq![self.x@[10], self.x@[11], self.x@[12]]);
        (self.x[17], args)
    }

    /// Puts the result of a system call in `a0` (`x10`).
    pub fn set_syscall_return(&mut self, ret: isize)
        ensures
            final(self).x@ == old(self).x@.update(10, ret as usize),
            final(self).sepc == old(self).sepc,
            final(self).sstatus == old(self).sstatus,
    {
        self.x[10] = ret as usize;
    }
}

} // verus!
