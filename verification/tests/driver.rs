use waycat::driver::Driver;
use waycat::driver::Signal;

#[test]
fn initial_state_stopped_and_unarmed() {
    let d = Driver::new();
    assert!(!d.active);
    assert!(!d.armed);
    // The starting state shows the first frame at any clock time.
    assert_eq!(d.current_frame(0), 0);
    assert_eq!(d.current_frame(750_000), 0);
}

#[test]
fn single_click_starts_animation() {
    let mut d = Driver::new();
    let arm = d.toggle();
    assert!(arm);
    assert!(d.active);
    assert!(d.armed);
    // Subsequent ticks show the time-derived frame and keep the task alive.
    let t = d.tick(750_000);
    assert_eq!(t.frame, 3);
    assert_eq!(t.signal, Signal::Continue);
    assert!(d.armed);
    let t = d.tick(950_000);
    assert_eq!(t.frame, 4);
    assert_eq!(t.signal, Signal::Continue);
}

#[test]
fn second_click_stops_at_next_tick() {
    let mut d = Driver::new();
    assert!(d.toggle());
    let t = d.tick(400_000);
    assert_eq!(t.frame, 2);
    assert_eq!(t.signal, Signal::Continue);
    // Second click: deactivates at once; the task is still scheduled.
    let arm = d.toggle();
    assert!(!arm);
    assert!(!d.active);
    assert!(d.armed);
    // The very next tick shows frame 0 and removes the task.
    let t = d.tick(600_000);
    assert_eq!(t.frame, 0);
    assert_eq!(t.signal, Signal::Stop);
    assert!(!d.armed);
}

#[test]
fn double_click_restores_initial_state() {
    let mut d = Driver::new();
    d.toggle();
    d.toggle();
    let t = d.tick(1_234_567);
    assert_eq!(t.frame, 0);
    assert_eq!(t.signal, Signal::Stop);
    assert_eq!(d, Driver::new());
}

#[test]
fn repeated_clicks_alternate_strictly() {
    let mut d = Driver::new();
    let mut expected_active = false;
    let mut i: u32 = 0;
    while i < 10 {
        let arm = d.toggle();
        expected_active = !expected_active;
        assert_eq!(d.active, expected_active);
        assert_eq!(arm, expected_active);
        i += 1;
    }
    // An even number of clicks leaves the flag where it started.
    assert!(!d.active);
}

#[test]
fn tick_while_stopped_rests_on_first_frame() {
    let mut d = Driver::new();
    d.toggle();
    d.toggle();
    let t = d.tick(750_000);
    // Even at a clock time mid-cycle, a stopped animation shows frame 0.
    assert_eq!(t.frame, 0);
    assert_eq!(t.signal, Signal::Stop);
}
