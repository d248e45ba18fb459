use rcore_tasks::config::MAX_APP_NUM;
use rcore_tasks::syscall::{sys_exit, sys_yield};
use rcore_tasks::task::{TaskContext, TaskControlBlock, TaskStatus};
use rcore_tasks::tasks::{
    calc_kernel_time, calc_user_time, exit_current_then_run_next, run_first,
    suspend_current_then_run_next, Schedule, TaskManager,
};
use rcore_tasks::timer::Time;

fn manager(apps: usize) -> TaskManager {
    let cx: Vec<usize> = (0..apps).map(|i| 0x1000 * (i + 1)).collect();
    TaskManager::new(0xdead, &cx, Time::from_micros(100))
}

fn total_charged(tm: &TaskManager) -> u64 {
    (0..MAX_APP_NUM)
        .map(|i| tm.task(i).user_time.as_micros() + tm.task(i).kernel_time.as_micros())
        .sum()
}

fn running(tm: &TaskManager) -> Vec<usize> {
    (0..MAX_APP_NUM).filter(|&i| tm.task(i).status == TaskStatus::Running).collect()
}

#[test]
fn new_manager_loads_each_app() {
    let tm = manager(3);
    assert_eq!(tm.app_num(), 3);
    assert_eq!(tm.current(), 0);
    assert_eq!(tm.time().as_micros(), 100);
    for i in 0..3 {
        let t = tm.task(i);
        assert_eq!(t.status, TaskStatus::Ready);
        assert_eq!(t.context.ra(), 0xdead);
        assert_eq!(t.context.sp(), 0x1000 * (i + 1));
    }
    for i in 3..MAX_APP_NUM {
        assert_eq!(tm.task(i).status, TaskStatus::Uninit);
        assert_eq!(tm.task(i).context.sp(), 0);
    }
}

#[test]
fn run_first_starts_task_zero_without_charging() {
    let mut tm = manager(2);
    let first = run_first(&mut tm, Time::from_micros(150));
    assert_eq!(first, 0);
    assert_eq!(tm.task(0).status, TaskStatus::Running);
    assert_eq!(tm.time().as_micros(), 150);
    assert_eq!(total_charged(&tm), 0);
}

#[test]
fn round_robin_switches_to_the_next_ready_task() {
    let mut tm = manager(3);
    run_first(&mut tm, Time::from_micros(100));
    assert_eq!(
        suspend_current_then_run_next(&mut tm, Time::from_micros(200)),
        Schedule::Switch { from: 0, to: 1 }
    );
    assert_eq!(tm.current(), 1);
    assert_eq!(tm.task(0).status, TaskStatus::Ready);
    assert_eq!(tm.task(1).status, TaskStatus::Running);
    assert_eq!(
        suspend_current_then_run_next(&mut tm, Time::from_micros(300)),
        Schedule::Switch { from: 1, to: 2 }
    );
    assert_eq!(
        suspend_current_then_run_next(&mut tm, Time::from_micros(400)),
        Schedule::Switch { from: 2, to: 0 }
    );
}

#[test]
fn lone_task_that_yields_runs_again() {
    let mut tm = manager(1);
    run_first(&mut tm, Time::from_micros(100));
    assert_eq!(
        suspend_current_then_run_next(&mut tm, Time::from_micros(120)),
        Schedule::Switch { from: 0, to: 0 }
    );
    assert_eq!(tm.task(0).status, TaskStatus::Running);
}

#[test]
fn exited_tasks_are_skipped_and_last_exit_shuts_down() {
    let mut tm = manager(3);
    run_first(&mut tm, Time::from_micros(100));
    let (report, next) = exit_current_then_run_next(&mut tm, Time::from_micros(3100));
    assert_eq!(report.id, 0);
    assert_eq!(report.kernel_ms, 3);
    assert_eq!(report.user_ms, 0);
    assert_eq!(next, Schedule::Switch { from: 0, to: 1 });
    assert_eq!(
        suspend_current_then_run_next(&mut tm, Time::from_micros(3200)),
        Schedule::Switch { from: 1, to: 2 }
    );
    assert_eq!(
        suspend_current_then_run_next(&mut tm, Time::from_micros(3300)),
        Schedule::Switch { from: 2, to: 1 }
    );
    assert_eq!(tm.task(0).status, TaskStatus::Exit);
    let (_, next) = sys_exit(&mut tm, 0, Time::from_micros(3400));
    assert_eq!(next, Schedule::Switch { from: 1, to: 2 });
    let (_, next) = sys_exit(&mut tm, -1, Time::from_micros(3500));
    assert_eq!(next, Schedule::Shutdown);
    for i in 0..3 {
        assert_eq!(tm.task(i).status, TaskStatus::Exit);
    }
}

#[test]
fn no_apps_means_shutdown() {
    let mut tm = manager(0);
    assert_eq!(suspend_current_then_run_next(&mut tm, Time::from_micros(100)), Schedule::Shutdown);
}

#[test]
fn accounted_time_tracks_the_clock() {
    let mut tm = manager(2);
    run_first(&mut tm, Time::from_micros(1000));
    calc_user_time(&mut tm, Time::from_micros(1500));
    assert_eq!(tm.task(0).user_time.as_micros(), 500);
    calc_kernel_time(&mut tm, Time::from_micros(1700));
    assert_eq!(tm.task(0).kernel_time.as_micros(), 200);
    let (ret, _) = sys_yield(&mut tm, Time::from_micros(1750));
    assert_eq!(ret, 0);
    assert_eq!(tm.task(0).kernel_time.as_micros(), 250);
    calc_user_time(&mut tm, Time::from_micros(2750));
    assert_eq!(tm.task(1).user_time.as_micros(), 1000);
    // Everything since the first task started is charged to some task.
    assert_eq!(total_charged(&tm), 2750 - 1000);
    assert_eq!(tm.time().as_micros(), 2750);
}

#[test]
fn at_most_one_task_runs() {
    let mut tm = manager(4);
    run_first(&mut tm, Time::from_micros(100));
    assert_eq!(running(&tm), vec![0]);
    let mut t = 100;
    for step in 0..10 {
        t += 10;
        if step % 3 == 2 {
            exit_current_then_run_next(&mut tm, Time::from_micros(t));
        } else {
            suspend_current_then_run_next(&mut tm, Time::from_micros(t));
        }
        let r = running(&tm);
        assert!(r.is_empty() || r == vec![tm.current()]);
    }
}

#[test]
fn task_control_block_basics() {
    let t = TaskControlBlock::uninit();
    assert_eq!(t.status, TaskStatus::Uninit);
    assert!(!t.is_ready());
    assert_eq!(t.user_time.as_micros(), 0);
    let mut r = t;
    r.status = TaskStatus::Ready;
    assert!(r.is_ready());
    let z = TaskContext::zero_init();
    assert_eq!((z.ra(), z.sp()), (0, 0));
    let c = TaskContext::goto_ret_to_user(0x80200000, 0x80300000);
    assert_eq!((c.ra(), c.sp()), (0x80200000, 0x80300000));
    assert_eq!(TaskStatus::default(), TaskStatus::Uninit);
}

#[test]
fn report_of_current_task() {
    let mut tm = manager(2);
    run_first(&mut tm, Time::from_micros(0));
    calc_user_time(&mut tm, Time::from_micros(2999));
    let r = tm.print_current_tcb();
    assert_eq!((r.id, r.user_ms, r.kernel_ms), (0, 2, 0));
}

#[test]
fn ready_task_runs_within_app_num_decisions() {
    // Five applications; task 4 waits while the others keep yielding.
    let mut tm = manager(5);
    run_first(&mut tm, Time::from_micros(0));
    let mut t = 0;
    let mut decisions = 0;
    while tm.current() != 4 {
        t += 10;
        suspend_current_then_run_next(&mut tm, Time::from_micros(t));
        decisions += 1;
    }
    assert_eq!(decisions, 4);
    assert!(decisions < tm.app_num());
    assert_eq!(tm.task(4).status, TaskStatus::Running);
}
