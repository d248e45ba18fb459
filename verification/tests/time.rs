use rcore_tasks::timer::{next_trigger, Time};

#[test]
fn up_time_converts_ticks_to_micros() {
    assert_eq!(Time::up_time(0).as_micros(), 0);
    assert_eq!(Time::up_time(10_000_000).as_micros(), 1_000_000);
    assert_eq!(Time::up_time(25).as_micros(), 2);
    assert_eq!(Time::up_time(12_345).as_millis(), 1);
}

#[test]
fn durations_between_instants() {
    let a = Time::from_micros(1_000);
    let b = Time::from_micros(4_500);
    assert_eq!(b.duration_since(a), 3_500);
    assert_eq!(a.elapsed(b), 3_500);
    assert_eq!(Time::zero().as_micros(), 0);
}

#[test]
fn elapsed_and_update_moves_on() {
    let mut t = Time::from_micros(700);
    assert_eq!(t.elapsed_and_update(Time::from_micros(1_000)), 300);
    assert_eq!(t.as_micros(), 1_000);
    assert_eq!(t.elapsed_and_update(Time::from_micros(1_000)), 0);
}

#[test]
fn add_assign_accumulates() {
    let mut t = Time::zero();
    t.add_assign(40);
    t.add_assign(2);
    assert_eq!(t.as_micros(), 42);
}

#[test]
fn next_trigger_is_one_tick_later() {
    assert_eq!(next_trigger(5), 10_005);
}

#[test]
fn default_is_zero() {
    assert_eq!(Time::default().as_micros(), 0);
}
