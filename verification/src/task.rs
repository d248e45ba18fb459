use vstd::prelude::*;

use crate::timer::Time;

verus! {

/// Where a task is in its life.
#[derive(Clone, Copy, Debug, PartialEq, Eq, Structural)]
pub enum TaskStatus {
    /// The slot holds no application.
    Uninit,
    /// Loaded and waiting for the processor.
    Ready,
    /// On the processor now.
    Running,
    /// Finished; never scheduled again.
    Exit,
}

impl Default for TaskStatus {
    fn default() -> (s: Self)
        ensures
            s == TaskStatus::Uninit,
    {
        TaskStatus::Uninit
    }
}

/// The registers the context-switch routine saves and restores: the return
/// address, the stack pointer and the callee-saved registers `s0`..`s11`.
#[derive(Clone, Copy, Debug)]
pub struct TaskContext {
    ra: usize,
    sp: usize,
    s: [usize; 12],
}

impl TaskContext {
    /// The saved return address.
    pub closed spec fn spec_ra(self) -> usize {
        self.ra
    }

    /// The saved stack pointer.
    pub closed spec fn spec_sp(self) -> usize {
        self.sp
    }

    /// The saved callee-saved registers.
    pub closed spec fn spec_s(self) -> Seq<usize> {
        self.s@
    }

    /// A context whose registers all hold zero.
    pub open spec fn is_zero(self) -> bool {
        &&& self.spec_ra() == 0
        &&& self.spec_sp() == 0
        &&& self.spec_s() == Seq::new(12, |i: int| 0usize)
    }

    /// A context with every register zero.
    pub fn zero_init() -> (cx: Self)
        ensures
            cx.is_zero(),
    {
        let cx = TaskContext { ra: 0, sp: 0, s: [0; 12] };
        assert(cx.spec_s() =~= Seq::new(12, |i: int| 0usize));
        cx
    }

    /// The context in which a freshly loaded application is first switched
    /// to: it returns into `trap_return` (the routine that restores a trap
    /// frame and drops to user mode) on the kernel stack `kernel_stack_p`,
    /// where that trap frame lies.
    pub fn goto_ret_to_user(trap_return: usize, kernel_stack_p: usize) -> (cx: Self)
        ensures
            cx.spec_ra() == trap_return,
            cx.spec_sp() == kernel_stack_p,
            cx.spec_s() == Seq::new(12, |i: int| 0usize),
    {
        let cx = TaskContext { ra: trap_return, sp: kernel_stack_p, s: [0; 12] };
        assert(cx.spec_s() =~= Seq::new(12, |i: int| 0usize));
        cx
    }

    /// The saved return address.
    pub fn ra(&self) -> (r: usize)
        ensures
            r == self.spec_ra(),
    {
        self.ra
    }

    /// The saved stack pointer.
    pub fn sp(&self) -> (r: usize)
        ensures
            r == self.spec_sp(),
    {
        self.sp
    }
}

impl Default for TaskContext {
    fn default() -> (cx: Self)
        ensures
            cx.is_zero(),
    {
        TaskContext::zero_init()
    }
}

/// What the kernel keeps of each task.
#[derive(Clone, Copy, Debug)]
pub struct TaskControlBlock {
    pub status: TaskStatus,
    pub context: TaskContext,
    /// Time spent in user mode.
    pub user_time: Time,
    /// Time spent in the kernel on the task's behalf.
    pub kernel_time: Time,
    pub id: usize,
}

impl TaskControlBlock {
    /// An empty slot: status `Uninit`, zero context, no time spent, id 0.
    pub open spec fn is_uninit(self) -> bool {
        &&& self.status == TaskStatus::Uninit
        &&& self.context.is_zero()
        &&& self.user_time.micros() == 0
        &&& self.kernel_time.micros() == 0
        &&& self.id == 0
    }

    /// Whether the task waits for the processor.
    pub fn is_ready(&self) -> (r: bool)
        ensures
            r == (self.status == TaskStatus::Ready),
    {
        self.status == TaskStatus::Ready
    }

    /// An empty task slot.
    pub fn uninit() -> (tcb: Self)
        ensures
            tcb.is_uninit(),
    {
        TaskControlBlock {
            status: TaskStatus::Uninit,
            context: TaskContext::zero_init(),
            user_time: Time::zero(),
            kernel_time: Time::zero(),
            id: 0,
        }
    }
}

/// The mathematical picture of a task control block: times in whole
/// microseconds.
pub struct TaskView {
    pub status: TaskStatus,
    pub context: TaskContext,
    pub user_time: nat,
    pub kernel_time: nat,
    pub id: usize,
}

impl View for TaskControlBlock {
    type V = TaskView;

    open spec fn view(&self) -> TaskView {
        TaskView {
            status: self.status,
            context: self.context,
            user_time: self.user_time.micros(),
            kernel_time: self.kernel_time.micros(),
            id: self.id,
        }
    }
}

impl Default for TaskControlBlock {
    fn default() -> (tcb: Self)
        ensures
            tcb.is_uninit(),
    {
        TaskControlBlock::uninit()
    }
}

} // verus!
