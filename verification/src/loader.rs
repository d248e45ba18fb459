use vstd::prelude::*;

use crate::config::{APP_BASE_ADDRESS, APP_SIZE_LIMIT, MAX_APP_NUM, USER_STACK_SIZE};
use crate::trap::{TrapContext, SSTATUS_SPP};

verus! {

/// Where application `id` is loaded.
pub open spec fn spec_app_base(id: int) -> int {
    APP_BASE_ADDRESS + id * APP_SIZE_LIMIT
}

/// Where application `id` is loaded: each application has its own
/// `APP_SIZE_LIMIT` bytes, one after the other from `APP_BASE_ADDRESS`.
pub fn get_app_base(id: usize) -> (r: usize)
    requires
        spec_app_base(id as int) <= usize::MAX,
    ensures
        r == spec_app_base(id as int),
        r == APP_BASE_ADDRESS + id * APP_SIZE_LIMIT,
{
    proof {
        lemma_app_base_spacing(0, id as int);
    }
    APP_BASE_ADDRESS + id * APP_SIZE_LIMIT
}

/// The applications lie one after another: application 0 at
/// `APP_BASE_ADDRESS`, and application `j` exactly `(j - i) *
/// APP_SIZE_LIMIT` bytes after application `i`; so the `APP_SIZE_LIMIT`
/// bytes of two different applications never overlap.
pub proof fn lemma_app_base_spacing(i: int, j: int)
    requires
        0 <= i <= j,
    ensures
        spec_app_base(0) == APP_BASE_ADDRESS,
        spec_app_base(j) - spec_app_base(i) == (j - i) * APP_SIZE_LIMIT,
        i < j ==> spec_app_base(i) + APP_SIZE_LIMIT <= spec_app_base(j),
{
    assert(spec_app_base(j) - spec_app_base(i) == (j - i) * APP_SIZE_LIMIT) by (nonlinear_arith)
        requires
            spec_app_base(j) == APP_BASE_ADDRESS + j * APP_SIZE_LIMIT,
            spec_app_base(i) == APP_BASE_ADDRESS + i * APP_SIZE_LIMIT,
    ;
    assert(i < j ==> (j - i) * APP_SIZE_LIMIT >= APP_SIZE_LIMIT) by (nonlinear_arith)
        requires
            i <= j,
    ;
}

/// The top of a stack whose memory starts at `base`. Kernel and user stacks
/// alike are taken to be `USER_STACK_SIZE` bytes long.
pub fn stack_top(base: usize) -> (r: usize)
    requires
        base + USER_STACK_SIZE <= usize::MAX,
    ensures
        r == base + USER_STACK_SIZE,
{
    base + USER_STACK_SIZE
}

/// Where a trap frame of `cx_size` bytes is pushed on a stack whose top is
/// `sp`.
pub fn push_context_address(sp: usize, cx_size: usize) -> (r: usize)
    requires
        cx_size <= sp,
    ensures
        r == sp - cx_size,
{
    sp - cx_size
}

/// The initial trap frame of application `app_id` and where it goes: the
/// frame enters the application at its load address with the stack pointer
/// at the top of its user stack (which starts at `user_stack_base`); it is
/// pushed on its kernel stack (which starts at `kernel_stack_base`). The
/// returned address is what the application's first context switch uses as
/// its stack pointer.
pub fn init_app_context(
    app_id: usize,
    kernel_stack_base: usize,
    user_stack_base: usize,
    cx_size: usize,
    sstatus: usize,
) -> (r: (usize, TrapContext))
    requires
        spec_app_base(app_id as int) <= usize::MAX,
        kernel_stack_base + USER_STACK_SIZE <= usize::MAX,
        user_stack_base + USER_STACK_SIZE <= usize::MAX,
        cx_size <= kernel_stack_base + USER_STACK_SIZE,
    ensures
        r.0 == kernel_stack_base + USER_STACK_SIZE - cx_size,
        r.1.sepc == spec_app_base(app_id as int),
        r.1.sstatus == sstatus & !SSTATUS_SPP,
        r.1.x@ == Seq::new(32, |i: int| 0usize).update(2, (user_stack_base + USER_STACK_SIZE) as usize),
{
    let cx = TrapContext::init(get_app_base(app_id), stack_top(user_stack_base), sstatus);
    (push_context_address(stack_top(kernel_stack_base), cx_size), cx)
}

/// One application image to copy into place.
#[derive(Clone, Copy, Debug, PartialEq, Eq, Structural)]
pub struct AppImage {
    /// Where the image goes; the `APP_SIZE_LIMIT` bytes from here are
    /// cleared first.
    pub base: usize,
    /// Where the image lies in the kernel's data.
    pub src: usize,
    /// Its length, in the units the image table counts in.
    pub len: usize,
}

/// Why the applications cannot be loaded.
#[derive(Clone, Copy, Debug, PartialEq, Eq, Structural)]
pub enum LoadError {
    /// The kernel holds `MAX_APP_NUM` applications or more.
    TooManyApps,
}

/// The start addresses in `app_start` never decrease.
pub open spec fn starts_sorted(app_start: Seq<usize>) -> bool {
    forall|i: int| 0 <= i < app_start.len() - 1 ==> app_start[i] <= #[trigger] app_start[i + 1]
}

/// The images to load, from the table of start addresses the kernel was
/// linked with: application `i` spans `app_start[i]` to `app_start[i + 1]`
/// and goes to `get_app_base(i)`. Fewer than `MAX_APP_NUM` applications are
/// accepted.
pub fn app_images(app_start: &[usize]) -> (r: Result<Vec<AppImage>, LoadError>)
    requires
        app_start.len() >= 1,
        app_start.len() - 1 < MAX_APP_NUM ==> starts_sorted(app_start@),
    ensures
        app_start.len() - 1 >= MAX_APP_NUM <==> r == Err::<Vec<AppImage>, LoadError>(
            LoadError::TooManyApps,
        ),
        r matches Ok(images) ==> {
            &&& images.len() == app_start.len() - 1
            &&& forall|i: int|
                0 <= i < images.len() ==> #[trigger] images[i] == (AppImage {
                    base: spec_app_base(i) as usize,
                    src: app_start[i],
                    len: (app_start[i + 1] - app_start[i]) as usize,
                })
        },
{
    let app_num = app_start.len() - 1;
    if app_num >= MAX_APP_NUM {
        return Err(LoadError::TooManyApps);
    }
    let mut images: Vec<AppImage> = Vec::new();
    let mut i: usize = 0;
    while i < app_num
        invariant
            app_num == app_start.len() - 1,
            app_num < MAX_APP_NUM,
            starts_sorted(app_start@),
            i <= app_num,
            images.len() == i,
            forall|j: int|
                0 <= j < i ==> #[trigger] images[j] == (AppImage {
                    base: spec_app_base(j) as usize,
                    src: app_start[j],
                    len: (app_start[j + 1] - app_start[j]) as usize,
                }),
        decreases app_num - i,
    {
        assert(app_start[i as int] <= app_start[i + 1]);
        let image = AppImage {
            base: get_app_base(i),
            src: app_start[i],
            len: app_start[i + 1] - app_start[i],
        };
        images.push(image);
        i = i + 1;
    }
    Ok(images)
}

} // verus!
