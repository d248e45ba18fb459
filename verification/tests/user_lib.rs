use rcore_tasks::sbi::{console_put_char, shutdown, SBI_CONSOLE_PUTCHAR, SRST_EXTENSION};
use rcore_tasks::syscall::{sys_get_time, syscall, SyscallRequest};
use rcore_tasks::timer::Time;
use rcore_tasks::user::{exit, get_time, get_time_call, sleep, yield_now};

#[test]
fn user_calls_decode_to_themselves() {
    let w = rcore_tasks::user::write(1, 0x10000, 13);
    assert_eq!(syscall(w.id, w.args), SyscallRequest::Write { fd: 1, buf: 0x10000, len: 13 });
    for code in [0, 1, -1, i32::MIN, i32::MAX] {
        let e = exit(code);
        assert_eq!(syscall(e.id, e.args), SyscallRequest::Exit { code });
    }
    let y = yield_now();
    assert_eq!(syscall(y.id, y.args), SyscallRequest::Yield);
    let g = get_time_call();
    assert_eq!(syscall(g.id, g.args), SyscallRequest::GetTime);
}

#[test]
fn get_time_reads_back_kernel_time() {
    assert_eq!(get_time(sys_get_time(Time::from_micros(987_654))), 987_654);
}

#[test]
fn sleep_waits_until_deadline() {
    let s = sleep(3000, 1_000);
    assert!(s.should_yield(1_000));
    assert!(s.should_yield(3_000_999));
    assert!(!s.should_yield(3_001_000));
    assert!(!s.should_yield(4_000_000));
    let zero = sleep(0, 50);
    assert!(!zero.should_yield(50));
    // A duration above isize::MAX wraps around to a negative one.
    let wrapped = sleep(u64::MAX, 5_000);
    assert!(!wrapped.should_yield(5_000));
    assert!(wrapped.should_yield(3_999));
}

#[test]
fn sbi_requests() {
    let c = console_put_char('A' as usize);
    assert_eq!((c.eid, c.fid, c.args), (SBI_CONSOLE_PUTCHAR, 0, [65, 0, 0]));
    let s = shutdown();
    assert_eq!((s.eid, s.fid, s.args), (SRST_EXTENSION, 0, [0, 0, 0]));
}
