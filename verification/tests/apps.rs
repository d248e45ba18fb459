use rcore_tasks::batch::{check_address_range, AppLoad, AppManager, AppRun};
use rcore_tasks::config::{APP_BASE_ADDRESS, APP_SIZE_LIMIT};
use rcore_tasks::loader::{
    app_images, get_app_base, init_app_context, push_context_address, stack_top, AppImage,
    LoadError,
};

#[test]
fn app_bases() {
    assert_eq!(get_app_base(0), APP_BASE_ADDRESS);
    assert_eq!(get_app_base(3), 0x80400000 + 3 * 0x20000);
    assert_eq!(get_app_base(1) - get_app_base(0), APP_SIZE_LIMIT);
}

#[test]
fn images_from_the_app_table() {
    let images = app_images(&[0x1000, 0x1800, 0x2000]).unwrap();
    assert_eq!(
        images,
        vec![
            AppImage { base: 0x80400000, src: 0x1000, len: 0x800 },
            AppImage { base: 0x80420000, src: 0x1800, len: 0x800 },
        ]
    );
    assert_eq!(app_images(&[0x1000]).unwrap(), vec![]);
    let too_many: Vec<usize> = (0..17).collect();
    assert_eq!(app_images(&too_many), Err(LoadError::TooManyApps));
    let fifteen: Vec<usize> = (0..16).collect();
    assert_eq!(app_images(&fifteen).unwrap().len(), 15);
}

#[test]
fn first_trap_frame() {
    assert_eq!(stack_top(0x9000), 0xa000);
    assert_eq!(push_context_address(0xa000, 272), 0xa000 - 272);
    let (addr, cx) = init_app_context(2, 0x9000, 0x20000, 272, 0x100);
    assert_eq!(addr, 0xa000 - 272);
    assert_eq!(cx.sepc, 0x80440000);
    assert_eq!(cx.x[2], 0x21000);
    assert_eq!(cx.sstatus, 0);
}

#[test]
fn batch_runs_apps_in_order() {
    let mut m = AppManager::new(2, &[0x100, 0x300, 0x700]);
    assert_eq!(m.print_app_info(), vec![(0x100, 0x300), (0x300, 0x700)]);
    assert_eq!(m.get_current_app(), 0);
    match m.run_next_app(0x9000, 0x20000, 272, 0x122) {
        AppRun::Start { src, len, cx_addr, cx } => {
            assert_eq!((src, len), (0x100, 0x200));
            assert_eq!(cx_addr, 0xa000 - 272);
            assert_eq!(cx.sepc, APP_BASE_ADDRESS);
            assert_eq!(cx.x[2], 0x21000);
            assert_eq!(cx.sstatus, 0x22);
        }
        AppRun::AllCompleted => panic!("expected a start"),
    }
    assert_eq!(m.get_current_app(), 1);
    assert!(matches!(
        m.run_next_app(0x9000, 0x20000, 272, 0),
        AppRun::Start { src: 0x300, len: 0x400, .. }
    ));
    assert!(matches!(m.run_next_app(0x9000, 0x20000, 272, 0), AppRun::AllCompleted));
    assert_eq!(m.get_current_app(), 2);
    assert_eq!(m.load_app(7), AppLoad::AllCompleted);
    m.move_to_next_app();
    assert_eq!(m.get_current_app(), 3);
}

#[test]
fn address_ranges_a_task_may_pass() {
    let mut m = AppManager::new(1, &[0x100, 0x300]);
    m.run_next_app(0x9000, 0x20000, 272, 0);
    let (ksp, usp) = (0x1_0000, 0x2_0000);
    assert!(check_address_range(&m, 0x1_0000, 0x10, ksp, usp));
    assert!(check_address_range(&m, 0x2_0100, 0xeff, usp - 0x1_0000, usp));
    assert!(check_address_range(&m, APP_BASE_ADDRESS, 0x1ff, ksp, usp));
    assert!(!check_address_range(&m, APP_BASE_ADDRESS, 0x200, ksp, usp));
    assert!(!check_address_range(&m, 0x1_0ff0, 0x10, ksp, usp));
    assert!(!check_address_range(&m, 0x50, 0x10, ksp, usp));
}
