use rcore_tasks::syscall::{
    sys_get_time, sys_write, syscall, SyscallRequest, SYSCALL_EXIT, SYSCALL_GET_TIME, SYSCALL_WRITE,
    SYSCALL_YIELD,
};
use rcore_tasks::timer::Time;
use rcore_tasks::trap::{
    kernel_trap_action, trap_cause, user_trap_action, Exception, Interrupt, KernelTrapAction,
    Trap, TrapContext, UserTrapAction,
};

const TOP: usize = usize::MAX / 2 + 1;

#[test]
fn scause_decoding() {
    assert_eq!(trap_cause(8), Trap::Exception(Exception::UserEnvCall));
    assert_eq!(trap_cause(2), Trap::Exception(Exception::IllegalInstruction));
    assert_eq!(trap_cause(15), Trap::Exception(Exception::StorePageFault));
    assert_eq!(trap_cause(7), Trap::Exception(Exception::StoreFault));
    assert_eq!(trap_cause(4), Trap::Exception(Exception::Unknown));
    assert_eq!(trap_cause(TOP | 5), Trap::Interrupt(Interrupt::SupervisorTimer));
    assert_eq!(trap_cause(TOP | 9), Trap::Interrupt(Interrupt::SupervisorExternal));
    assert_eq!(trap_cause(TOP | 3), Trap::Interrupt(Interrupt::Unknown));
    assert_eq!(trap_cause(TOP), Trap::Interrupt(Interrupt::UserSoft));
}

#[test]
fn user_traps() {
    assert_eq!(user_trap_action(trap_cause(8)), UserTrapAction::Syscall);
    assert_eq!(user_trap_action(trap_cause(2)), UserTrapAction::KillIllegalInstruction);
    assert_eq!(user_trap_action(trap_cause(15)), UserTrapAction::KillStoreFault);
    assert_eq!(user_trap_action(trap_cause(7)), UserTrapAction::KillStoreFault);
    assert_eq!(user_trap_action(trap_cause(TOP | 5)), UserTrapAction::Preempt);
    assert_eq!(user_trap_action(trap_cause(13)), UserTrapAction::KillUnsupported);
}

#[test]
fn kernel_traps() {
    let mut seen = false;
    let timer = Trap::Interrupt(Interrupt::SupervisorTimer);
    assert_eq!(kernel_trap_action(timer, &mut seen), KernelTrapAction::FirstTimer);
    assert!(seen);
    assert_eq!(kernel_trap_action(timer, &mut seen), KernelTrapAction::Timer);
    assert_eq!(
        kernel_trap_action(Trap::Exception(Exception::LoadFault), &mut seen),
        KernelTrapAction::Kill
    );
    assert!(seen);
}

#[test]
fn trap_frame_for_syscalls() {
    let mut cx = TrapContext::init(0x80400000, 0x80500000, 0x122);
    assert_eq!(cx.sepc, 0x80400000);
    assert_eq!(cx.sstatus, 0x22);
    assert_eq!(cx.x[2], 0x80500000);
    cx.x[17] = SYSCALL_WRITE;
    cx.x[10] = 1;
    cx.x[11] = 0x1234;
    cx.x[12] = 5;
    let (id, args) = cx.take_syscall();
    assert_eq!(cx.sepc, 0x80400004);
    assert_eq!(id, SYSCALL_WRITE);
    assert_eq!(args, [1, 0x1234, 5]);
    cx.set_syscall_return(-1);
    assert_eq!(cx.x[10], usize::MAX);
}

#[test]
fn syscall_decoding() {
    assert_eq!(syscall(SYSCALL_WRITE, [1, 2, 3]), SyscallRequest::Write { fd: 1, buf: 2, len: 3 });
    assert_eq!(syscall(SYSCALL_EXIT, [usize::MAX, 0, 0]), SyscallRequest::Exit { code: -1 });
    assert_eq!(syscall(SYSCALL_YIELD, [0, 0, 0]), SyscallRequest::Yield);
    assert_eq!(syscall(SYSCALL_GET_TIME, [0, 0, 0]), SyscallRequest::GetTime);
    assert_eq!(syscall(42, [0, 0, 0]), SyscallRequest::Unsupported { id: 42 });
}

#[test]
fn write_results() {
    assert_eq!(sys_write(1, b"Test sleep OK!"), 14);
    assert_eq!(sys_write(2, b"Test sleep OK!"), -1);
    assert_eq!(sys_write(0, b""), -1);
    assert_eq!(sys_write(2, &[0xff, 0xfe]), -1);
}

#[test]
fn get_time_result() {
    assert_eq!(sys_get_time(Time::from_micros(123_456)), 123_456);
}
