use rcore_tasks::handler::{
    kernel_trap_handler, serve_syscall, user_trap_continue, user_trap_handler, user_trap_return,
    KernelTrapOutcome, TrapOutcome, UserTrapEntry,
};
use rcore_tasks::syscall::{SyscallRequest, SYSCALL_EXIT, SYSCALL_GET_TIME, SYSCALL_WRITE, SYSCALL_YIELD};
use rcore_tasks::task::TaskStatus;
use rcore_tasks::tasks::{run_first, Schedule, TaskManager};
use rcore_tasks::timer::Time;
use rcore_tasks::trap::{trap_cause, Exception, Interrupt, Trap, TrapContext, UserTrapAction};

const TOP: usize = usize::MAX / 2 + 1;

fn started(apps: usize) -> TaskManager {
    let cx: Vec<usize> = (0..apps).map(|i| 0x1000 * (i + 1)).collect();
    let mut tm = TaskManager::new(0xdead, &cx, Time::from_micros(0));
    run_first(&mut tm, Time::from_micros(100));
    tm
}

fn frame(id: usize, a0: usize, a1: usize, a2: usize) -> TrapContext {
    let mut cx = TrapContext::init(0x80400000, 0x80500000, 0);
    cx.x[17] = id;
    cx.x[10] = a0;
    cx.x[11] = a1;
    cx.x[12] = a2;
    cx
}

#[test]
fn write_to_a_bad_descriptor_returns_minus_one_in_a0() {
    let mut tm = started(2);
    let mut cx = frame(SYSCALL_WRITE, 2, 0, 0);
    let entry = user_trap_handler(&mut tm, &mut cx, trap_cause(8), Time::from_micros(300));
    assert_eq!(entry, UserTrapEntry::Syscall(SyscallRequest::Write { fd: 2, buf: 0, len: 0 }));
    assert_eq!(cx.sepc, 0x80400004);
    assert_eq!(tm.task(0).user_time.as_micros(), 200);
    let out = user_trap_continue(&mut tm, entry, &[], Time::from_micros(310));
    assert_eq!(out, TrapOutcome::Resume { ret: -1 });
    user_trap_return(&mut tm, &mut cx, Some(-1), Time::from_micros(330));
    assert_eq!(cx.x[10], usize::MAX);
    assert_eq!((cx.x[11], cx.x[12], cx.x[17]), (0, 0, 64));
    assert_eq!(cx.sepc, 0x80400004);
    assert_eq!(tm.task(0).kernel_time.as_micros(), 30);
}

#[test]
fn write_to_console_returns_length() {
    let mut tm = started(1);
    let mut cx = frame(SYSCALL_WRITE, 1, 0x1000, 5);
    let entry = user_trap_handler(&mut tm, &mut cx, trap_cause(8), Time::from_micros(100));
    let out = user_trap_continue(&mut tm, entry, b"hello", Time::from_micros(100));
    assert_eq!(out, TrapOutcome::Resume { ret: 5 });
}

#[test]
fn get_time_returns_micros() {
    let mut tm = started(1);
    let out = serve_syscall(&mut tm, SyscallRequest::GetTime, &[], Time::from_micros(4242));
    assert_eq!(out, TrapOutcome::Resume { ret: 4242 });
    let mut cx = frame(SYSCALL_GET_TIME, 0, 0, 0);
    assert_eq!(
        user_trap_handler(&mut tm, &mut cx, trap_cause(8), Time::from_micros(5000)),
        UserTrapEntry::Syscall(SyscallRequest::GetTime)
    );
}

#[test]
fn yield_switches_and_resumes_with_zero() {
    let mut tm = started(2);
    let mut cx = frame(SYSCALL_YIELD, 0, 0, 0);
    let entry = user_trap_handler(&mut tm, &mut cx, trap_cause(8), Time::from_micros(200));
    let out = user_trap_continue(&mut tm, entry, &[], Time::from_micros(210));
    assert_eq!(
        out,
        TrapOutcome::Switch {
            schedule: Schedule::Switch { from: 0, to: 1 },
            rearm_timer: false,
            resume_with: Some(0)
        }
    );
    assert_eq!(tm.task(0).status, TaskStatus::Ready);
}

#[test]
fn timer_preempts_without_touching_the_frame() {
    let mut tm = started(2);
    let mut cx = frame(SYSCALL_WRITE, 7, 8, 9);
    let before = cx;
    let entry = user_trap_handler(&mut tm, &mut cx, trap_cause(TOP | 5), Time::from_micros(200));
    assert_eq!(entry, UserTrapEntry::Preempt);
    assert_eq!((cx.x, cx.sepc, cx.sstatus), (before.x, before.sepc, before.sstatus));
    let out = user_trap_continue(&mut tm, entry, &[], Time::from_micros(200));
    assert_eq!(
        out,
        TrapOutcome::Switch {
            schedule: Schedule::Switch { from: 0, to: 1 },
            rearm_timer: true,
            resume_with: None
        }
    );
    assert_eq!(tm.task(0).status, TaskStatus::Ready);
    assert_eq!(tm.task(1).status, TaskStatus::Running);
}

#[test]
fn faults_kill_the_task_with_minus_one() {
    for (bits, action) in [
        (2, UserTrapAction::KillIllegalInstruction),
        (15, UserTrapAction::KillStoreFault),
        (7, UserTrapAction::KillStoreFault),
        (13, UserTrapAction::KillUnsupported),
    ] {
        let mut tm = started(2);
        let mut cx = frame(0, 0, 0, 0);
        let entry = user_trap_handler(&mut tm, &mut cx, trap_cause(bits), Time::from_micros(200));
        assert_eq!(entry, UserTrapEntry::Kill { action });
        assert_eq!(cx.sepc, 0x80400000);
        match user_trap_continue(&mut tm, entry, &[], Time::from_micros(200)) {
            TrapOutcome::Exit { code, report, schedule } => {
                assert_eq!(code, -1);
                assert_eq!(report.id, 0);
                assert_eq!(schedule, Schedule::Switch { from: 0, to: 1 });
            }
            other => panic!("unexpected {:?}", other),
        }
        assert_eq!(tm.task(0).status, TaskStatus::Exit);
    }
}

#[test]
fn exit_and_unknown_calls_end_the_task() {
    let mut tm = started(1);
    let out = serve_syscall(&mut tm, SyscallRequest::Exit { code: 3 }, &[], Time::from_micros(200));
    assert!(matches!(out, TrapOutcome::Exit { code: 3, schedule: Schedule::Shutdown, .. }));
    let mut tm = started(2);
    let mut cx = frame(SYSCALL_EXIT + 1, 0, 0, 0);
    let entry = user_trap_handler(&mut tm, &mut cx, trap_cause(8), Time::from_micros(200));
    assert_eq!(entry, UserTrapEntry::Syscall(SyscallRequest::Unsupported { id: 94 }));
    let out = user_trap_continue(&mut tm, entry, &[], Time::from_micros(200));
    assert!(matches!(out, TrapOutcome::Exit { code: -1, .. }));
    assert_eq!(tm.task(0).status, TaskStatus::Exit);
}

#[test]
fn kernel_traps_kill_or_continue() {
    let mut tm = started(2);
    let mut seen = false;
    let timer = Trap::Interrupt(Interrupt::SupervisorTimer);
    assert_eq!(
        kernel_trap_handler(&mut tm, timer, &mut seen, Time::from_micros(150)),
        KernelTrapOutcome::FirstTimer
    );
    assert_eq!(
        kernel_trap_handler(&mut tm, timer, &mut seen, Time::from_micros(160)),
        KernelTrapOutcome::Timer
    );
    assert_eq!(tm.task(0).status, TaskStatus::Running);
    match kernel_trap_handler(&mut tm, Trap::Exception(Exception::LoadFault), &mut seen, Time::from_micros(170)) {
        KernelTrapOutcome::Exit { report, schedule } => {
            assert_eq!(report.id, 0);
            assert_eq!(schedule, Schedule::Switch { from: 0, to: 1 });
        }
        other => panic!("unexpected {:?}", other),
    }
    assert_eq!(tm.task(0).status, TaskStatus::Exit);
}
