use vstd::prelude::*;

use crate::config::MAX_APP_NUM;
use crate::task::{TaskContext, TaskControlBlock, TaskStatus, TaskView};
use crate::timer::Time;

verus! {

// ---------------------------------------------------------------------------
// The model
// ---------------------------------------------------------------------------

/// The time charged to one task, user and kernel together.
pub open spec fn task_cost(t: TaskView) -> nat {
    t.user_time + t.kernel_time
}

/// The time charged to all the tasks of `tasks`.
pub open spec fn accounted(tasks: Seq<TaskView>) -> nat
    decreases tasks.len(),
{
    if tasks.len() == 0 {
        0
    } else {
        accounted(tasks.drop_last()) + task_cost(tasks.last())
    }
}

/// What the processor is to do after a scheduling decision.
#[derive(Clone, Copy, Debug, PartialEq, Eq, Structural)]
pub enum Schedule {
    /// Save the registers into the context of task `from` and resume task `to`.
    Switch { from: usize, to: usize },
    /// No task is ready any more: power off.
    Shutdown,
}

/// The mathematical picture of the task manager.
pub struct ManagerView {
    /// How many of the task slots hold applications.
    pub app_num: nat,
    /// The slot of the task that runs, or ran last.
    pub current: nat,
    /// The instant up to which time has been charged, in microseconds.
    pub time: nat,
    /// The task slots, `MAX_APP_NUM` of them.
    pub tasks: Seq<TaskView>,
}

/// What the kernel reports of the current task of `v`.
pub open spec fn report_of(v: ManagerView) -> TaskReport {
    TaskReport {
        id: v.current as usize,
        user_ms: (v.tasks[v.current as int].user_time / 1000) as u64,
        kernel_ms: (v.tasks[v.current as int].kernel_time / 1000) as u64,
    }
}

/// The report taken when a task exits names the task that exited, by its
/// slot, and gives its user and kernel time (the exit included) in whole
/// milliseconds.
pub proof fn lemma_exit_report(v: ManagerView, now: nat)
    requires
        v.wf(),
        v.time <= now <= u64::MAX,
    ensures
        report_of(v.mark_current(TaskStatus::Exit, now)).id == v.current,
        report_of(v.mark_current(TaskStatus::Exit, now)).user_ms == v.tasks[v.current as int].user_time
            / 1000,
        report_of(v.mark_current(TaskStatus::Exit, now)).kernel_ms == (v.tasks[v.current as int].kernel_time
            + (now - v.time)) / 1000,
{
    lemma_charge(v, TaskStatus::Exit, now);
    lemma_accounted_le_cost(v.mark_current(TaskStatus::Exit, now).tasks, v.current as int);
}

impl ManagerView {
    /// The invariant that every operation keeps.
    pub open spec fn wf(self) -> bool {
        &&& self.tasks.len() == MAX_APP_NUM
        &&& self.app_num <= MAX_APP_NUM
        &&& self.current < MAX_APP_NUM
        &&& self.app_num > 0 ==> self.current < self.app_num
        &&& accounted(self.tasks) <= self.time
        &&& self.time <= u64::MAX
    }

    /// Whether the task in slot `i` waits for the processor.
    pub open spec fn ready(self, i: int) -> bool {
        self.tasks[i].status == TaskStatus::Ready
    }

    /// The slot met `k` steps after the current one in round-robin order.
    pub open spec fn rr_slot(self, k: int) -> int {
        (self.current + k) % (self.app_num as int)
    }

    /// The first ready slot among those `k`, `k + 1`, ..., `app_num` steps
    /// after the current one.
    pub open spec fn first_ready_from(self, k: int) -> Option<nat>
        decreases self.app_num + 1 - k,
    {
        if k < 1 || k > self.app_num {
            None
        } else if self.ready(self.rr_slot(k)) {
            Some(self.rr_slot(k) as nat)
        } else {
            self.first_ready_from(k + 1)
        }
    }

    /// The task to run next: the first ready one in round-robin order,
    /// starting after the current task and ending with it.
    pub open spec fn next_ready(self) -> Option<nat> {
        self.first_ready_from(1)
    }

    /// Moves the accounting instant on to `now`.
    pub open spec fn refreshed(self, now: nat) -> Self {
        ManagerView { time: now, ..self }
    }

    /// Charges the time since the last accounting instant to the current
    /// task as user time.
    pub open spec fn charge_user(self, now: nat) -> Self {
        let t = self.tasks[self.current as int];
        ManagerView {
            time: now,
            tasks: self.tasks.update(
                self.current as int,
                TaskView { user_time: t.user_time + (now - self.time) as nat, ..t },
            ),
            ..self
        }
    }

    /// Charges the time since the last accounting instant to the current
    /// task as kernel time.
    pub open spec fn charge_kernel(self, now: nat) -> Self {
        let t = self.tasks[self.current as int];
        ManagerView {
            time: now,
            tasks: self.tasks.update(
                self.current as int,
                TaskView { kernel_time: t.kernel_time + (now - self.time) as nat, ..t },
            ),
            ..self
        }
    }

    /// Gives the current task `status` and charges the time since the last
    /// accounting instant to it as kernel time.
    pub open spec fn mark_current(self, status: TaskStatus, now: nat) -> Self {
        let t = self.tasks[self.current as int];
        ManagerView {
            time: now,
            tasks: self.tasks.update(
                self.current as int,
                TaskView { status, kernel_time: t.kernel_time + (now - self.time) as nat, ..t },
            ),
            ..self
        }
    }

    /// The state after the scheduling decision: the next ready task, if
    /// any, becomes the running, current one.
    pub open spec fn scheduled(self) -> Self {
        match self.next_ready() {
            Some(next) => {
                let t = self.tasks[next as int];
                ManagerView {
                    current: next,
                    tasks: self.tasks.update(next as int, TaskView { status: TaskStatus::Running, ..t }),
                    ..self
                }
            },
            None => self,
        }
    }

    /// The scheduling decision itself.
    pub open spec fn schedule(self) -> Schedule {
        match self.next_ready() {
            Some(next) => Schedule::Switch { from: self.current as usize, to: next as usize },
            None => Schedule::Shutdown,
        }
    }

    /// The state after the first task is started at `now`.
    pub open spec fn started(self, now: nat) -> Self {
        let t = self.tasks[0];
        ManagerView {
            time: now,
            tasks: self.tasks.update(0, TaskView { status: TaskStatus::Running, ..t }),
            ..self
        }
    }

    /// No task but the current one is running.
    pub open spec fn only_current_runs(self) -> bool {
        forall|i: int|
            0 <= i < self.tasks.len() && i != self.current ==> #[trigger] self.tasks[i].status
                != TaskStatus::Running
    }
}

// ---------------------------------------------------------------------------
// Lemmas on the model
// ---------------------------------------------------------------------------

/// Replacing one task changes the total by the difference of their costs.
pub proof fn lemma_accounted_update(tasks: Seq<TaskView>, i: int, t: TaskView)
    requires
        0 <= i < tasks.len(),
    ensures
        accounted(tasks.update(i, t)) + task_cost(tasks[i]) == accounted(tasks) + task_cost(t),
    decreases tasks.len(),
{
    let u = tasks.update(i, t);
    if i == tasks.len() - 1 {
        assert(u.drop_last() =~= tasks.drop_last());
    } else {
        assert(u.drop_last() =~= tasks.drop_last().update(i, t));
        lemma_accounted_update(tasks.drop_last(), i, t);
    }
}

/// What the search from step `k` returns is a ready slot met at some step
/// `j >= k`, with no ready slot met at a step between `k` and `j`; and it
/// returns nothing when no slot met from step `k` on is ready.
proof fn lemma_first_ready_from(v: ManagerView, k: int)
    requires
        1 <= k,
        v.app_num > 0,
    ensures
        match v.first_ready_from(k) {
            Some(id) => exists|j: int|
                #![trigger v.rr_slot(j)]
                k <= j <= v.app_num && id == v.rr_slot(j) && v.ready(v.rr_slot(j)) && forall|l: int|
                    k <= l < j ==> !v.ready(#[trigger] v.rr_slot(l)),
            None => forall|j: int| k <= j <= v.app_num ==> !v.ready(#[trigger] v.rr_slot(j)),
        },
    decreases v.app_num + 1 - k,
{
    if k <= v.app_num {
        lemma_first_ready_from(v, k + 1);
        if !v.ready(v.rr_slot(k)) {
            match v.first_ready_from(k + 1) {
                Some(id) => {
                    let j = choose|j: int|
                        #![trigger v.rr_slot(j)]
                        k + 1 <= j <= v.app_num && id == v.rr_slot(j) && v.ready(v.rr_slot(j))
                            && forall|l: int| k + 1 <= l < j ==> !v.ready(#[trigger] v.rr_slot(l));
                    assert forall|l: int| k <= l < j implies !v.ready(#[trigger] v.rr_slot(l)) by {}
                },
                None => {},
            }
        } else {
            assert(0 <= v.rr_slot(k)) by {
                vstd::arithmetic::div_mod::lemma_mod_bound(v.current + k, v.app_num as int);
            }
        }
    }
}

/// Every slot below `app_num` is met within `app_num` round-robin steps.
proof fn lemma_rr_covers(v: ManagerView, i: int)
    requires
        v.wf(),
        v.app_num > 0,
        0 <= i < v.app_num,
    ensures
        exists|k: int| #![trigger v.rr_slot(k)] 1 <= k <= v.app_num && v.rr_slot(k) == i,
{
    let n = v.app_num as int;
    let c = v.current as int;
    if i > c {
        let k = i - c;
        vstd::arithmetic::div_mod::lemma_small_mod(i as nat, n as nat);
        assert(v.rr_slot(k) == i);
    } else {
        let k = i + n - c;
        vstd::arithmetic::div_mod::lemma_mod_add_multiples_vanish(i, n);
        vstd::arithmetic::div_mod::lemma_small_mod(i as nat, n as nat);
        assert(c + k == n + i);
        assert(v.rr_slot(k) == i);
    }
}

/// The slots met in round-robin steps all lie below `app_num`.
proof fn lemma_rr_bound(v: ManagerView, k: int)
    requires
        v.app_num > 0,
        k >= 0,
    ensures
        0 <= v.rr_slot(k) < v.app_num,
{
    vstd::arithmetic::div_mod::lemma_mod_bound(v.current + k, v.app_num as int);
}

/// The scheduler picks a task exactly when some application is ready; the
/// task it picks is ready, lies below `app_num`, and is the first ready one
/// in round-robin order after the current task (which itself comes last).
pub proof fn lemma_next_ready(v: ManagerView)
    requires
        v.wf(),
    ensures
        v.next_ready() is None <==> forall|i: int| 0 <= i < v.app_num ==> !v.ready(i),
        v.next_ready() matches Some(id) ==> {
            &&& id < v.app_num
            &&& v.ready(id as int)
            &&& exists|k: int|
                #![trigger v.rr_slot(k)]
                1 <= k <= v.app_num && id == v.rr_slot(k) && forall|l: int|
                    1 <= l < k ==> !v.ready(#[trigger] v.rr_slot(l))
        },
{
    if v.app_num == 0 {
    } else {
        lemma_first_ready_from(v, 1);
        match v.next_ready() {
            Some(id) => {
                let k = choose|j: int|
                    #![trigger v.rr_slot(j)]
                    1 <= j <= v.app_num && id == v.rr_slot(j) && v.ready(v.rr_slot(j))
                        && forall|l: int| 1 <= l < j ==> !v.ready(#[trigger] v.rr_slot(l));
                lemma_rr_bound(v, k);
            },
            None => {
                assert forall|i: int| 0 <= i < v.app_num implies !v.ready(i) by {
                    lemma_rr_covers(v, i);
                }
            },
        }
    }
}

/// Charging time, as user or kernel time or while changing the current
/// task's status, keeps the invariant, adds exactly the time elapsed since the
/// last accounting instant to the total charged to the tasks, and leaves the
/// other tasks alone.
pub proof fn lemma_charge(v: ManagerView, status: TaskStatus, now: nat)
    requires
        v.wf(),
        v.time <= now <= u64::MAX,
    ensures
        v.charge_user(now).wf(),
        v.charge_kernel(now).wf(),
        v.mark_current(status, now).wf(),
        accounted(v.charge_user(now).tasks) == accounted(v.tasks) + (now - v.time),
        accounted(v.charge_kernel(now).tasks) == accounted(v.tasks) + (now - v.time),
        accounted(v.mark_current(status, now).tasks) == accounted(v.tasks) + (now - v.time),
{
    let c = v.current as int;
    let t = v.tasks[c];
    let d = (now - v.time) as nat;
    lemma_accounted_update(v.tasks, c, TaskView { user_time: t.user_time + d, ..t });
    lemma_accounted_update(v.tasks, c, TaskView { kernel_time: t.kernel_time + d, ..t });
    lemma_accounted_update(v.tasks, c, TaskView { status, kernel_time: t.kernel_time + d, ..t });
}

/// The scheduling decision keeps the invariant and charges no time.
pub proof fn lemma_scheduled(v: ManagerView)
    requires
        v.wf(),
    ensures
        v.scheduled().wf(),
        accounted(v.scheduled().tasks) == accounted(v.tasks),
        v.scheduled().time == v.time,
{
    lemma_next_ready(v);
    if let Some(next) = v.next_ready() {
        let t = v.tasks[next as int];
        lemma_accounted_update(v.tasks, next as int, TaskView { status: TaskStatus::Running, ..t });
    }
}

/// Starting the first task keeps the invariant and charges no time.
pub proof fn lemma_started(v: ManagerView, now: nat)
    requires
        v.wf(),
        v.time <= now <= u64::MAX,
    ensures
        v.started(now).wf(),
        accounted(v.started(now).tasks) == accounted(v.tasks),
{
    let t = v.tasks[0];
    lemma_accounted_update(v.tasks, 0, TaskView { status: TaskStatus::Running, ..t });
}

/// An exited task stays exited: once the current task has been given a new
/// status and the next task chosen, every task that had exited before, and
/// the current one if it was just marked exited, is still exited; and the
/// chosen task was ready, never exited.
pub proof fn lemma_exit_is_final(v: ManagerView, status: TaskStatus, now: nat)
    requires
        v.wf(),
    ensures
        forall|i: int|
            0 <= i < MAX_APP_NUM && (if i == v.current {
                status
            } else {
                v.tasks[i].status
            }) == TaskStatus::Exit ==> #[trigger] v.mark_current(status, now).scheduled().tasks[i].status
                == TaskStatus::Exit,
        v.mark_current(status, now).schedule() matches Schedule::Switch { to, .. } ==> v.mark_current(
            status,
            now,
        ).tasks[to as int].status == TaskStatus::Ready,
{
    let m = v.mark_current(status, now);
    if m.app_num > 0 {
        lemma_first_ready_from(m, 1);
        if let Some(id) = m.next_ready() {
            let k = choose|j: int|
                #![trigger m.rr_slot(j)]
                1 <= j <= m.app_num && id == m.rr_slot(j) && m.ready(m.rr_slot(j)) && forall|l: int|
                    1 <= l < j ==> !m.ready(#[trigger] m.rr_slot(l));
            lemma_rr_bound(m, k);
        }
    }
}

/// When at most the current task is running and the current task is given a
/// status other than running, then after the next task is chosen at most the
/// (new) current task is running.
pub proof fn lemma_single_runner(v: ManagerView, status: TaskStatus, now: nat)
    requires
        v.wf(),
        v.time <= now <= u64::MAX,
        v.only_current_runs(),
        status != TaskStatus::Running,
    ensures
        v.mark_current(status, now).scheduled().only_current_runs(),
{
    let m = v.mark_current(status, now);
    lemma_charge(v, status, now);
    lemma_next_ready(m);
}

// ---------------------------------------------------------------------------
// Laws over runs of scheduling decisions
// ---------------------------------------------------------------------------

/// One scheduling decision: the current task is given `status` at instant
/// `now` (`Ready` when it yields or is preempted, `Exit` when it exits), and
/// the next task is chosen.
pub open spec fn decide(v: ManagerView, step: (TaskStatus, nat)) -> ManagerView {
    v.mark_current(step.0, step.1).scheduled()
}

/// The state after the decisions `steps`, taken in order.
pub open spec fn decisions(v: ManagerView, steps: Seq<(TaskStatus, nat)>) -> ManagerView
    decreases steps.len(),
{
    if steps.len() == 0 {
        v
    } else {
        decisions(decide(v, steps[0]), steps.drop_first())
    }
}

/// The decisions `steps` can be taken from a state whose accounting instant
/// is `time`: no task is put back to running by hand, and the clock does
/// not run back.
pub open spec fn valid_steps(time: nat, steps: Seq<(TaskStatus, nat)>) -> bool {
    &&& forall|i: int| 0 <= i < steps.len() ==> #[trigger] steps[i].0 != TaskStatus::Running
    &&& forall|i: int| 0 <= i < steps.len() ==> #[trigger] steps[i].1 <= u64::MAX
    &&& steps.len() > 0 ==> time <= steps[0].1
    &&& forall|i: int| 0 <= i < steps.len() - 1 ==> #[trigger] steps[i].1 <= steps[i + 1].1
}

/// Every decision of `steps` but the last chose a task to switch to: the
/// machine kept running.
pub open spec fn keeps_running(v: ManagerView, steps: Seq<(TaskStatus, nat)>) -> bool
    decreases steps.len(),
{
    steps.len() <= 1 || {
        &&& v.mark_current(steps[0].0, steps[0].1).schedule() is Switch
        &&& keeps_running(decide(v, steps[0]), steps.drop_first())
    }
}

/// How many round-robin steps after the current task slot `r` comes.
pub open spec fn rr_dist(v: ManagerView, r: int) -> int {
    if r > v.current {
        r - v.current
    } else {
        r + v.app_num - v.current
    }
}

proof fn lemma_mod_once(x: int, n: int)
    requires
        n > 0,
        0 <= x < 2 * n,
    ensures
        x % n == if x < n {
            x
        } else {
            x - n
        },
{
    if x < n {
        vstd::arithmetic::div_mod::lemma_small_mod(x as nat, n as nat);
    } else {
        vstd::arithmetic::div_mod::lemma_mod_add_multiples_vanish(x - n, n);
        vstd::arithmetic::div_mod::lemma_small_mod((x - n) as nat, n as nat);
    }
}

proof fn lemma_valid_steps_rest(v: ManagerView, steps: Seq<(TaskStatus, nat)>)
    requires
        v.wf(),
        steps.len() > 0,
        valid_steps(v.time, steps),
    ensures
        decide(v, steps[0]).wf(),
        decide(v, steps[0]).time == steps[0].1,
        valid_steps(decide(v, steps[0]).time, steps.drop_first()),
{
    lemma_charge(v, steps[0].0, steps[0].1);
    lemma_scheduled(v.mark_current(steps[0].0, steps[0].1));
    let rest = steps.drop_first();
    assert forall|i: int| 0 <= i < rest.len() - 1 implies #[trigger] rest[i].1 <= rest[i + 1].1 by {
        assert(steps[i + 1].1 <= steps[i + 2].1);
    }
    if rest.len() > 0 {
        assert(steps[0].1 <= steps[1].1);
    }
}

/// One decision brings a ready task `r` strictly nearer in round-robin
/// order, or runs it.
proof fn lemma_progress(v: ManagerView, r: int, step: (TaskStatus, nat))
    requires
        v.wf(),
        0 <= r < v.app_num,
        v.ready(r),
        r != v.current,
    ensures
        ({
            let w = decide(v, step);
            ||| w.current == r && w.tasks[r].status == TaskStatus::Running
            ||| w.ready(r) && w.current != r && rr_dist(w, r) < rr_dist(v, r)
        }),
{
    let m = v.mark_current(step.0, step.1);
    let n = v.app_num as int;
    let c = v.current as int;
    let d = rr_dist(v, r);
    lemma_mod_once(c + d, n);
    assert(m.rr_slot(d) == r);
    lemma_first_ready_from(m, 1);
    let id = m.next_ready()->0;
    let k = choose|j: int|
        #![trigger m.rr_slot(j)]
        1 <= j <= m.app_num && id == m.rr_slot(j) && m.ready(m.rr_slot(j)) && forall|l: int|
            1 <= l < j ==> !m.ready(#[trigger] m.rr_slot(l));
    assert(k <= d);
    lemma_mod_once(c + k, n);
}

/// No ready task starves: when the running tasks keep giving up the
/// processor (yielding, being preempted or exiting), a ready task `r` other
/// than the current one runs within `rr_dist(v, r)` decisions, which is
/// fewer than the number of applications.
pub proof fn lemma_no_starvation(v: ManagerView, r: int, steps: Seq<(TaskStatus, nat)>)
    requires
        v.wf(),
        0 <= r < v.app_num,
        v.ready(r),
        r != v.current,
        valid_steps(v.time, steps),
        steps.len() >= rr_dist(v, r),
    ensures
        rr_dist(v, r) < v.app_num,
        exists|j: int|
            1 <= j <= rr_dist(v, r) && #[trigger] decisions(v, steps.take(j)).current == r
                && decisions(v, steps.take(j)).tasks[r].status == TaskStatus::Running,
    decreases rr_dist(v, r),
{
    let w = decide(v, steps[0]);
    lemma_progress(v, r, steps[0]);
    lemma_valid_steps_rest(v, steps);
    assert(decisions(v, steps.take(1)) == decisions(w, steps.take(1).drop_first()));
    assert(steps.take(1).drop_first() =~= Seq::<(TaskStatus, nat)>::empty());
    if w.current == r {
        assert(decisions(v, steps.take(1)) == w);
    } else {
        let rest = steps.drop_first();
        lemma_no_starvation(w, r, rest);
        let j = choose|j: int|
            1 <= j <= rr_dist(w, r) && #[trigger] decisions(w, rest.take(j)).current == r
                && decisions(w, rest.take(j)).tasks[r].status == TaskStatus::Running;
        assert(steps.take(j + 1).drop_first() =~= rest.take(j));
        assert(decisions(v, steps.take(j + 1)) == decisions(w, rest.take(j)));
    }
}

/// An exited task is never run again: along decisions taken by a task that
/// has not exited, and that keep the machine running, every task that had
/// exited is still exited at the end.
pub proof fn lemma_exit_stays(v: ManagerView, steps: Seq<(TaskStatus, nat)>, i: int)
    requires
        v.wf(),
        valid_steps(v.time, steps),
        keeps_running(v, steps),
        v.tasks[v.current as int].status != TaskStatus::Exit,
        0 <= i < MAX_APP_NUM,
        v.tasks[i].status == TaskStatus::Exit,
    ensures
        decisions(v, steps).tasks[i].status == TaskStatus::Exit,
    decreases steps.len(),
{
    if steps.len() > 0 {
        let w = decide(v, steps[0]);
        lemma_exit_is_final(v, steps[0].0, steps[0].1);
        lemma_valid_steps_rest(v, steps);
        assert(w.tasks[i].status == TaskStatus::Exit);
        if steps.len() > 1 {
            lemma_charge(v, steps[0].0, steps[0].1);
            lemma_next_ready(v.mark_current(steps[0].0, steps[0].1));
            assert(w.tasks[w.current as int].status == TaskStatus::Running);
            lemma_exit_stays(w, steps.drop_first(), i);
        } else {
            assert(steps.drop_first() =~= Seq::<(TaskStatus, nat)>::empty());
            assert(decisions(w, steps.drop_first()) == w);
        }
    }
}

// ---------------------------------------------------------------------------
// The task manager
// ---------------------------------------------------------------------------

/// What the kernel reports of a task when it exits.
#[derive(Clone, Copy, Debug, PartialEq, Eq, Structural)]
pub struct TaskReport {
    /// The task's slot.
    pub id: usize,
    /// Its user time, in whole milliseconds.
    pub user_ms: u64,
    /// Its kernel time, in whole milliseconds.
    pub kernel_ms: u64,
}

/// The part of the task manager that changes while the kernel runs.
pub struct TaskManagerInner {
    tasks: [TaskControlBlock; MAX_APP_NUM],
    current: usize,
    time: Time,
}

impl TaskManagerInner {
    /// The task slots.
    pub closed spec fn spec_tasks(&self) -> Seq<TaskView> {
        self.tasks@.map_values(|t: TaskControlBlock| t@)
    }

    /// The current slot.
    pub closed spec fn spec_current(&self) -> nat {
        self.current as nat
    }

    /// The instant up to which time has been charged.
    pub closed spec fn spec_time(&self) -> nat {
        self.time.micros()
    }

    /// Returns the time elapsed since the last accounting instant and moves
    /// that instant on to `now`.
    pub fn refresh_current_time(&mut self, now: Time) -> (d: u64)
        requires
            old(self).spec_time() <= now.micros(),
        ensures
            d == now.micros() - old(self).spec_time(),
            final(self).spec_time() == now.micros(),
            final(self).spec_tasks() == old(self).spec_tasks(),
            final(self).spec_current() == old(self).spec_current(),
    {
        self.time.elapsed_and_update(now)
    }
}

/// The kernel's table of tasks, with the round-robin scheduler and the
/// accounting of processor time.
pub struct TaskManager {
    app_num: usize,
    inner: TaskManagerInner,
}

impl View for TaskManager {
    type V = ManagerView;

    closed spec fn view(&self) -> ManagerView {
        ManagerView {
            app_num: self.app_num as nat,
            current: self.inner.spec_current(),
            time: self.inner.spec_time(),
            tasks: self.inner.spec_tasks(),
        }
    }
}

/// A freshly loaded application's slot: ready, about to return into
/// `trap_return` on the kernel stack `trap_cx`, with no time charged.
pub open spec fn is_loaded_task(t: TaskView, trap_return: usize, trap_cx: usize) -> bool {
    &&& t.status == TaskStatus::Ready
    &&& t.context.spec_ra() == trap_return
    &&& t.context.spec_sp() == trap_cx
    &&& t.context.spec_s() == Seq::new(12, |i: int| 0usize)
    &&& t.user_time == 0
    &&& t.kernel_time == 0
    &&& t.id == 0
}

/// An empty slot.
pub open spec fn is_empty_task(t: TaskView) -> bool {
    &&& t.status == TaskStatus::Uninit
    &&& t.context.is_zero()
    &&& t.user_time == 0
    &&& t.kernel_time == 0
    &&& t.id == 0
}

impl TaskManager {
    /// The task manager at boot, at instant `now`: one ready task per
    /// application, application `i` about to return to user mode through
    /// `trap_return` with the trap frame at `app_trap_cx[i]`; the remaining
    /// slots empty; task 0 current.
    pub fn new(trap_return: usize, app_trap_cx: &Vec<usize>, now: Time) -> (tm: Self)
        requires
            app_trap_cx.len() <= MAX_APP_NUM,
        ensures
            tm@.wf(),
            tm@.only_current_runs(),
            tm@.app_num == app_trap_cx.len(),
            tm@.current == 0,
            tm@.time == now.micros(),
            forall|i: int|
                0 <= i < app_trap_cx.len() ==> is_loaded_task(
                    #[trigger] tm@.tasks[i],
                    trap_return,
                    app_trap_cx[i],
                ),
            forall|i: int| app_trap_cx.len() <= i < MAX_APP_NUM ==> is_empty_task(#[trigger] tm@.tasks[i]),
    {
        let mut tasks = [TaskControlBlock::uninit();MAX_APP_NUM];
        let app_num = app_trap_cx.len();
        let mut i: usize = 0;
        while i < app_num
            invariant
                app_num == app_trap_cx.len(),
                app_num <= MAX_APP_NUM,
                i <= app_num,
                forall|j: int|
                    0 <= j < i ==> is_loaded_task(#[trigger] tasks@[j]@, trap_return, app_trap_cx[j]),
                forall|j: int| i <= j < MAX_APP_NUM ==> is_empty_task(#[trigger] tasks@[j]@),
            decreases app_num - i,
        {
            let mut t = TaskControlBlock::uninit();
            t.context = TaskContext::goto_ret_to_user(trap_return, app_trap_cx[i]);
            t.status = TaskStatus::Ready;
            tasks[i] = t;
            i = i + 1;
        }
        let tm = TaskManager { app_num, inner: TaskManagerInner { tasks, current: 0, time: now } };
        proof {
            now.lemma_micros_bound();
        }
        assert(tm@.tasks.len() == MAX_APP_NUM);
        assert(accounted(tm@.tasks) == 0) by {
            lemma_accounted_zero(tm@.tasks);
        }
        tm
    }

    /// How many applications there are.
    pub fn app_num(&self) -> (r: usize)
        ensures
            r == self@.app_num,
    {
        self.app_num
    }

    /// The current slot.
    pub fn current(&self) -> (r: usize)
        ensures
            r == self@.current,
    {
        self.inner.current
    }

    /// The instant up to which time has been charged.
    pub fn time(&self) -> (r: Time)
        ensures
            r.micros() == self@.time,
    {
        self.inner.time
    }

    /// The control block in slot `i`.
    pub fn task(&self, i: usize) -> (t: TaskControlBlock)
        requires
            self@.wf(),
            i < MAX_APP_NUM,
        ensures
            t@ == self@.tasks[i as int],
    {
        self.inner.tasks[i]
    }

    /// What the kernel reports of the current task.
    pub fn print_current_tcb(&self) -> (r: TaskReport)
        requires
            self@.wf(),
        ensures
            r == report_of(self@),
            r.id == self@.current,
            r.user_ms == self@.tasks[self@.current as int].user_time / 1000,
            r.kernel_ms == self@.tasks[self@.current as int].kernel_time / 1000,
    {
        proof {
            lemma_accounted_le_cost(self@.tasks, self@.current as int);
        }
        let current = self.inner.current;
        let tcb = self.inner.tasks[current];
        TaskReport { id: current, user_ms: tcb.user_time.as_millis(), kernel_ms: tcb.kernel_time.as_millis() }
    }

    /// Charges the time since the last accounting instant to the current
    /// task as kernel time.
    pub fn calc_kernel_time(&mut self, now: Time)
        requires
            old(self)@.wf(),
            old(self)@.time <= now.micros(),
        ensures
            final(self)@ == old(self)@.charge_kernel(now.micros()),
            final(self)@.wf(),
    {
        proof {
            now.lemma_micros_bound();
            lemma_charge(self@, TaskStatus::Ready, now.micros());
            lemma_accounted_le_cost(self@.tasks, self@.current as int);
        }
        let current = self.inner.current;
        let executing_time = self.inner.refresh_current_time(now);
        let mut t = self.inner.tasks[current];
        t.kernel_time.add_assign(executing_time);
        self.inner.tasks[current] = t;
        assert(self@.tasks =~= old(self)@.charge_kernel(now.micros()).tasks);
    }

    /// Charges the time since the last accounting instant to the current
    /// task as user time.
    pub fn calc_user_time(&mut self, now: Time)
        requires
            old(self)@.wf(),
            old(self)@.time <= now.micros(),
        ensures
            final(self)@ == old(self)@.charge_user(now.micros()),
            final(self)@.wf(),
    {
        proof {
            now.lemma_micros_bound();
            lemma_charge(self@, TaskStatus::Ready, now.micros());
            lemma_accounted_le_cost(self@.tasks, self@.current as int);
        }
        let current = self.inner.current;
        let executing_time = self.inner.refresh_current_time(now);
        let mut t = self.inner.tasks[current];
        t.user_time.add_assign(executing_time);
        self.inner.tasks[current] = t;
        assert(self@.tasks =~= old(self)@.charge_user(now.micros()).tasks);
    }

    /// Gives the current task `status` and charges the time since the last
    /// accounting instant to it as kernel time.
    pub fn mark_current_status(&mut self, status: TaskStatus, now: Time)
        requires
            old(self)@.wf(),
            old(self)@.time <= now.micros(),
        ensures
            final(self)@ == old(self)@.mark_current(status, now.micros()),
            final(self)@.wf(),
    {
        proof {
            now.lemma_micros_bound();
            lemma_charge(self@, status, now.micros());
            lemma_accounted_le_cost(self@.tasks, self@.current as int);
        }
        let current = self.inner.current;
        let mut t = self.inner.tasks[current];
        t.status = status;
        let executing_time = self.inner.refresh_current_time(now);
        t.kernel_time.add_assign(executing_time);
        self.inner.tasks[current] = t;
        assert(self@.tasks =~= old(self)@.mark_current(status, now.micros()).tasks);
    }

    /// The next task to run: the first ready one in round-robin order after
    /// the current one.
    pub fn find_next(&self) -> (r: Option<usize>)
        requires
            self@.wf(),
        ensures
            match r {
                Some(id) => self@.next_ready() == Some(id as nat),
                None => self@.next_ready() is None,
            },
    {
        let n = self.app_num;
        let cur = self.inner.current;
        if n == 0 {
            return None;
        }
        let mut k: usize = 1;
        while k <= n
            invariant
                self@.wf(),
                n == self@.app_num,
                cur == self@.current,
                n > 0,
                1 <= k <= n + 1,
                self@.next_ready() == self@.first_ready_from(k as int),
            decreases n + 1 - k,
        {
            proof {
                lemma_rr_bound(self@, k as int);
            }
            let id = (cur + k) % n;
            assert(id == self@.rr_slot(k as int));
            if self.inner.tasks[id].is_ready() {
                return Some(id);
            }
            k = k + 1;
        }
        None
    }

    /// Chooses the next task; when there is one, makes it the running,
    /// current task.
    pub fn run_next(&mut self) -> (r: Schedule)
        requires
            old(self)@.wf(),
        ensures
            final(self)@ == old(self)@.scheduled(),
            r == old(self)@.schedule(),
            final(self)@.wf(),
    {
        proof {
            lemma_scheduled(self@);
            lemma_next_ready(self@);
        }
        match self.find_next() {
            Some(next) => {
                let current = self.inner.current;
                let mut t = self.inner.tasks[next];
                t.status = TaskStatus::Running;
                self.inner.tasks[next] = t;
                self.inner.current = next;
                assert(self@.tasks =~= old(self)@.scheduled().tasks);
                Schedule::Switch { from: current, to: next }
            },
            None => Schedule::Shutdown,
        }
    }

    /// Starts task 0 at instant `now`; returns the slot to switch to.
    pub fn run_first(&mut self, now: Time) -> (first: usize)
        requires
            old(self)@.wf(),
            old(self)@.time <= now.micros(),
        ensures
            first == 0,
            final(self)@ == old(self)@.started(now.micros()),
            final(self)@.wf(),
    {
        proof {
            now.lemma_micros_bound();
            lemma_started(self@, now.micros());
        }
        self.inner.refresh_current_time(now);
        let mut t = self.inner.tasks[0];
        t.status = TaskStatus::Running;
        self.inner.tasks[0] = t;
        assert(self@.tasks =~= old(self)@.started(now.micros()).tasks);
        0
    }
}

/// Nothing is charged to tasks that have no time.
proof fn lemma_accounted_zero(tasks: Seq<TaskView>)
    requires
        forall|i: int|
            #![trigger tasks[i]]
            0 <= i < tasks.len() ==> tasks[i].user_time == 0 && tasks[i].kernel_time == 0,
    ensures
        accounted(tasks) == 0,
    decreases tasks.len(),
{
    if tasks.len() > 0 {
        let d = tasks.drop_last();
        assert forall|i: int| #![trigger d[i]] 0 <= i < d.len() implies d[i].user_time == 0
            && d[i].kernel_time == 0 by {
            assert(d[i] == tasks[i]);
        }
        lemma_accounted_zero(d);
    }
}

/// No task is charged more than all the tasks together.
proof fn lemma_accounted_le_cost(tasks: Seq<TaskView>, i: int)
    requires
        0 <= i < tasks.len(),
    ensures
        task_cost(tasks[i]) <= accounted(tasks),
    decreases tasks.len(),
{
    if i < tasks.len() - 1 {
        lemma_accounted_le_cost(tasks.drop_last(), i);
    }
}

// ---------------------------------------------------------------------------
// The kernel's scheduling entry points
// ---------------------------------------------------------------------------

/// Starts the first application at instant `now`: task 0 becomes running and
/// the time spent booting is charged to no task. Returns the slot to switch
/// to.
pub fn run_first(tm: &mut TaskManager, now: Time) -> (first: usize)
    requires
        old(tm)@.wf(),
        old(tm)@.time <= now.micros(),
    ensures
        first == 0,
        final(tm)@ == old(tm)@.started(now.micros()),
        final(tm)@.wf(),
        accounted(final(tm)@.tasks) == accounted(old(tm)@.tasks),
        old(tm)@.only_current_runs() && old(tm)@.current == 0 ==> final(tm)@.only_current_runs(),
{
    proof {
        now.lemma_micros_bound();
        lemma_started(tm@, now.micros());
    }
    tm.run_first(now)
}

/// The current task gives up the processor at instant `now`: it becomes
/// ready again, the time since the last accounting instant is charged to it
/// as kernel time, and the next task is chosen (possibly the same one).
pub fn suspend_current_then_run_next(tm: &mut TaskManager, now: Time) -> (r: Schedule)
    requires
        old(tm)@.wf(),
        old(tm)@.time <= now.micros(),
    ensures
        final(tm)@ == old(tm)@.mark_current(TaskStatus::Ready, now.micros()).scheduled(),
        r == old(tm)@.mark_current(TaskStatus::Ready, now.micros()).schedule(),
        final(tm)@.wf(),
        old(tm)@.app_num > 0 ==> r is Switch,
        old(tm)@.only_current_runs() ==> final(tm)@.only_current_runs(),
{
    proof {
        now.lemma_micros_bound();
        lemma_charge(tm@, TaskStatus::Ready, now.micros());
        lemma_single_runner_if(tm@, TaskStatus::Ready, now.micros());
        if tm@.app_num > 0 {
            lemma_suspend_switches(tm@, now.micros());
        }
    }
    tm.mark_current_status(TaskStatus::Ready, now);
    tm.run_next()
}

/// The current task exits at instant `now`: it is marked exited, the time
/// since the last accounting instant is charged to it as kernel time, its
/// report is taken, and the next task is chosen; when none is ready the
/// machine is to shut down.
pub fn exit_current_then_run_next(tm: &mut TaskManager, now: Time) -> (r: (TaskReport, Schedule))
    requires
        old(tm)@.wf(),
        old(tm)@.time <= now.micros(),
    ensures
        ({
            let m = old(tm)@.mark_current(TaskStatus::Exit, now.micros());
            &&& final(tm)@ == m.scheduled()
            &&& r.1 == m.schedule()
            &&& r.0 == report_of(m)
        }),
        r.0.id == old(tm)@.current,
        final(tm)@.wf(),
        old(tm)@.only_current_runs() ==> final(tm)@.only_current_runs(),
{
    proof {
        now.lemma_micros_bound();
        lemma_charge(tm@, TaskStatus::Exit, now.micros());
        lemma_single_runner_if(tm@, TaskStatus::Exit, now.micros());
    }
    tm.mark_current_status(TaskStatus::Exit, now);
    let report = tm.print_current_tcb();
    let next = tm.run_next();
    (report, next)
}

/// Charges the time since the last accounting instant to the current task as
/// user time (on entering the kernel from user mode).
pub fn calc_user_time(tm: &mut TaskManager, now: Time)
    requires
        old(tm)@.wf(),
        old(tm)@.time <= now.micros(),
    ensures
        final(tm)@ == old(tm)@.charge_user(now.micros()),
        final(tm)@.wf(),
{
    tm.calc_user_time(now)
}

/// Charges the time since the last accounting instant to the current task as
/// kernel time (on leaving the kernel for user mode).
pub fn calc_kernel_time(tm: &mut TaskManager, now: Time)
    requires
        old(tm)@.wf(),
        old(tm)@.time <= now.micros(),
    ensures
        final(tm)@ == old(tm)@.charge_kernel(now.micros()),
        final(tm)@.wf(),
{
    tm.calc_kernel_time(now)
}

proof fn lemma_single_runner_if(v: ManagerView, status: TaskStatus, now: nat)
    requires
        v.wf(),
        v.time <= now <= u64::MAX,
        status != TaskStatus::Running,
    ensures
        v.only_current_runs() ==> v.mark_current(status, now).scheduled().only_current_runs(),
{
    if v.only_current_runs() {
        lemma_single_runner(v, status, now);
    }
}

/// A task that yields always finds a task to switch to: at worst itself.
pub proof fn lemma_suspend_switches(v: ManagerView, now: nat)
    requires
        v.wf(),
        v.app_num > 0,
        v.time <= now <= u64::MAX,
    ensures
        v.mark_current(TaskStatus::Ready, now).schedule() is Switch,
{
    let m = v.mark_current(TaskStatus::Ready, now);
    lemma_charge(v, TaskStatus::Ready, now);
    lemma_next_ready(m);
    assert(m.ready(m.current as int));
}

} // verus!
