use vstd::prelude::*;

use crate::config::{APP_BASE_ADDRESS, KERNEL_STACK_SIZE, MAX_APP_NUM, USER_STACK_SIZE};
use crate::loader::{push_context_address, stack_top};
use crate::trap::{TrapContext, SSTATUS_SPP};

verus! {

// The batch system: applications run one after another, each loaded in
// turn at `APP_BASE_ADDRESS`.

/// The length of the table of application start addresses: one entry per
/// application and one for the end of the last.
pub const APP_TABLE_LEN: usize = 17;

/// The batch system's record of the applications.
pub struct AppManager {
    num_app: usize,
    current_app: usize,
    app_start: [usize; APP_TABLE_LEN],
}

/// What to do to run the next application.
#[derive(Clone, Copy, Debug, PartialEq, Eq, Structural)]
pub enum AppLoad {
    /// Clear the `APP_SIZE_LIMIT` bytes at `APP_BASE_ADDRESS`, copy the
    /// `len` bytes at `src` there and enter the application.
    Load { src: usize, len: usize },
    /// Every application has run: power off.
    AllCompleted,
}

/// What running the next application takes.
#[derive(Clone, Copy, Debug)]
pub enum AppRun {
    /// Clear the `APP_SIZE_LIMIT` bytes at `APP_BASE_ADDRESS`, copy the `len`
    /// bytes at `src` there, write the trap frame `cx` at `cx_addr` and
    /// return to user mode through it.
    Start { src: usize, len: usize, cx_addr: usize, cx: TrapContext },
    /// Every application has run: power off.
    AllCompleted,
}

impl AppManager {
    /// How many applications there are.
    pub closed spec fn spec_num_app(&self) -> nat {
        self.num_app as nat
    }

    /// How many applications have been started.
    pub closed spec fn spec_current_app(&self) -> nat {
        self.current_app as nat
    }

    /// The table of start addresses.
    pub closed spec fn spec_app_start(&self) -> Seq<usize> {
        self.app_start@
    }

    /// The invariant of the record.
    pub open spec fn wf(&self) -> bool {
        &&& self.spec_num_app() <= MAX_APP_NUM
        &&& self.spec_app_start().len() == APP_TABLE_LEN
    }

    /// The record at boot, from the number of applications and the table
    /// of their start addresses (`num_app + 1` entries).
    pub fn new(num_app: usize, app_start: &[usize]) -> (m: Self)
        requires
            num_app <= MAX_APP_NUM,
            app_start.len() == num_app + 1,
        ensures
            m.wf(),
            m.spec_num_app() == num_app,
            m.spec_current_app() == 0,
            forall|i: int| 0 <= i <= num_app ==> #[trigger] m.spec_app_start()[i] == app_start[i],
            forall|i: int| num_app < i < APP_TABLE_LEN ==> #[trigger] m.spec_app_start()[i] == 0,
    {
        let mut table = [0usize; APP_TABLE_LEN];
        let mut i: usize = 0;
        while i <= num_app
            invariant
                num_app <= MAX_APP_NUM,
                app_start.len() == num_app + 1,
                i <= num_app + 1,
                forall|j: int| 0 <= j < i ==> #[trigger] table@[j] == app_start[j],
                forall|j: int| i <= j < APP_TABLE_LEN ==> #[trigger] table@[j] == 0,
            decreases num_app + 1 - i,
        {
            table[i] = app_start[i];
            i = i + 1;
        }
        AppManager { num_app, current_app: 0, app_start: table }
    }

    /// How many applications have been started, which is the index of the
    /// next one to start.
    pub fn get_current_app(&self) -> (r: usize)
        ensures
            r == self.spec_current_app(),
    {
        self.current_app
    }

    /// Counts one more application as started.
    pub fn move_to_next_app(&mut self)
        requires
            old(self).spec_current_app() < usize::MAX,
        ensures
            final(self).spec_current_app() == old(self).spec_current_app() + 1,
            final(self).spec_num_app() == old(self).spec_num_app(),
            final(self).spec_app_start() == old(self).spec_app_start(),
    {
        self.current_app = self.current_app + 1;
    }

    /// The address ranges of the applications, as the boot log lists them:
    /// application `i` spans `app_start[i]` to `app_start[i + 1]`.
    pub fn print_app_info(&self) -> (r: Vec<(usize, usize)>)
        requires
            self.wf(),
        ensures
            r.len() == self.spec_num_app(),
            forall|i: int|
                0 <= i < r.len() ==> #[trigger] r[i] == (
                    self.spec_app_start()[i],
                    self.spec_app_start()[i + 1],
                ),
    {
        let mut r: Vec<(usize, usize)> = Vec::new();
        let mut i: usize = 0;
        while i < self.num_app
            invariant
                self.wf(),
                i <= self.num_app,
                r.len() == i,
                forall|j: int|
                    0 <= j < i ==> #[trigger] r[j] == (
                        self.spec_app_start()[j],
                        self.spec_app_start()[j + 1],
                    ),
            decreases self.num_app - i,
        {
            r.push((self.app_start[i], self.app_start[i + 1]));
            i = i + 1;
        }
        r
    }

    /// What loading application `app_id` takes: nothing is loaded, and the
    /// machine is to shut down, once `app_id` is past the last application.
    pub fn load_app(&self, app_id: usize) -> (r: AppLoad)
        requires
            self.wf(),
            app_id < self.spec_num_app() ==> self.spec_app_start()[app_id as int]
                <= self.spec_app_start()[app_id + 1],
        ensures
            app_id >= self.spec_num_app() ==> r == AppLoad::AllCompleted,
            app_id < self.spec_num_app() ==> r == (AppLoad::Load {
                src: self.spec_app_start()[app_id as int],
                len: (self.spec_app_start()[app_id + 1] - self.spec_app_start()[app_id as int]) as usize,
            }),
    {
        if self.num_app <= app_id {
            return AppLoad::AllCompleted;
        }
        AppLoad::Load {
            src: self.app_start[app_id],
            len: self.app_start[app_id + 1] - self.app_start[app_id],
        }
    }

    /// Runs the next application. When there is one, it is loaded (as
    /// `load_app` says), counted as started, and entered through a trap frame
    /// that starts it at `APP_BASE_ADDRESS` with the stack pointer at the top
    /// of the user stack (which starts at `user_stack_base`); the frame, of
    /// `cx_size` bytes, is pushed on the kernel stack (which starts at
    /// `kernel_stack_base`), and its address is what the return to user mode
    /// takes. `sstatus` is the current value of that register.
    pub fn run_next_app(
        &mut self,
        kernel_stack_base: usize,
        user_stack_base: usize,
        cx_size: usize,
        sstatus: usize,
    ) -> (r: AppRun)
        requires
            old(self).wf(),
            old(self).spec_current_app() < old(self).spec_num_app() ==> old(
                self,
            ).spec_app_start()[old(self).spec_current_app() as int] <= old(
                self,
            ).spec_app_start()[old(self).spec_current_app() + 1int],
            kernel_stack_base + USER_STACK_SIZE <= usize::MAX,
            user_stack_base + USER_STACK_SIZE <= usize::MAX,
            cx_size <= kernel_stack_base + USER_STACK_SIZE,
        ensures
            final(self).wf(),
            final(self).spec_num_app() == old(self).spec_num_app(),
            final(self).spec_app_start() == old(self).spec_app_start(),
            match r {
                AppRun::Start { src, len, cx_addr, cx } => {
                    &&& old(self).load_app_spec(old(self).spec_current_app()) == (AppLoad::Load {
                        src,
                        len,
                    })
                    &&& final(self).spec_current_app() == old(self).spec_current_app() + 1
                    &&& cx_addr == kernel_stack_base + USER_STACK_SIZE - cx_size
                    &&& cx.sepc == APP_BASE_ADDRESS
                    &&& cx.sstatus == sstatus & !SSTATUS_SPP
                    &&& cx.x@ == Seq::new(32, |i: int| 0usize).update(
                        2,
                        (user_stack_base + USER_STACK_SIZE) as usize,
                    )
                },
                AppRun::AllCompleted => {
                    &&& old(self).load_app_spec(old(self).spec_current_app())
                        == AppLoad::AllCompleted
                    &&& final(self).spec_current_app() == old(self).spec_current_app()
                },
            },
    {
        let cur_app = self.get_current_app();
        match self.load_app(cur_app) {
            AppLoad::Load { src, len } => {
                self.move_to_next_app();
                let cx = TrapContext::init(APP_BASE_ADDRESS, stack_top(user_stack_base), sstatus);
                let cx_addr = push_context_address(stack_top(kernel_stack_base), cx_size);
                AppRun::Start { src, len, cx_addr, cx }
            },
            AppLoad::AllCompleted => AppRun::AllCompleted,
        }
    }

    /// What `load_app(app_id)` returns.
    pub open spec fn load_app_spec(&self, app_id: nat) -> AppLoad {
        if app_id >= self.spec_num_app() {
            AppLoad::AllCompleted
        } else {
            AppLoad::Load {
                src: self.spec_app_start()[app_id as int],
                len: (self.spec_app_start()[app_id + 1int] - self.spec_app_start()[app_id as int]) as usize,
            }
        }
    }
}

/// Whether both `start` and `end` lie in the half-open range from `lo` to
/// `hi`.
pub open spec fn both_in(lo: int, hi: int, start: int, end: int) -> bool {
    lo <= start < hi && lo <= end < hi
}

/// Whether the buffer of `len` bytes at `addr` lies in memory the running
/// application may hand to the kernel: its kernel stack region, its user
/// stack region, or its image. `kernel_sp` and `user_sp` are the stack
/// pointers the stacks start with; the image is that of the application
/// started last. A range counts when both its start and its end lie inside.
pub fn check_address_range(
    manager: &AppManager,
    addr: usize,
    len: usize,
    kernel_sp: usize,
    user_sp: usize,
) -> (r: bool)
    requires
        manager.wf(),
        1 <= manager.spec_current_app() < APP_TABLE_LEN,
        manager.spec_app_start()[manager.spec_current_app() - 1]
            <= manager.spec_app_start()[manager.spec_current_app() as int],
        APP_BASE_ADDRESS + manager.spec_app_start()[manager.spec_current_app() as int]
            - manager.spec_app_start()[manager.spec_current_app() - 1] <= usize::MAX,
        addr + len <= usize::MAX,
        kernel_sp + KERNEL_STACK_SIZE <= usize::MAX,
        user_sp + USER_STACK_SIZE <= usize::MAX,
    ensures
        ({
            let cur = manager.spec_current_app() - 1;
            let app_len = manager.spec_app_start()[cur + 1] - manager.spec_app_start()[cur];
            r == (both_in(kernel_sp as int, kernel_sp + KERNEL_STACK_SIZE, addr as int, addr + len)
                || both_in(user_sp as int, user_sp + USER_STACK_SIZE, addr as int, addr + len)
                || both_in(
                APP_BASE_ADDRESS as int,
                APP_BASE_ADDRESS + app_len,
                addr as int,
                addr + len,
            ))
        }),
{
    let cur_app = manager.get_current_app() - 1;
    let app_len = manager.app_start[cur_app + 1] - manager.app_start[cur_app];
    let cur_app_space_start = APP_BASE_ADDRESS;
    let cur_app_space_end = APP_BASE_ADDRESS + app_len;
    let start = addr;
    let end = start + len;
    let ks_end = KERNEL_STACK_SIZE + kernel_sp;
    let us_end = USER_STACK_SIZE + user_sp;
    (kernel_sp <= start && start < ks_end && kernel_sp <= end && end < ks_end) || (user_sp <= start
        && start < us_end && user_sp <= end && end < us_end) || (cur_app_space_start <= start
        && start < cur_app_space_end && cur_app_space_start <= end && end < cur_app_space_end)
}

} // verus!
