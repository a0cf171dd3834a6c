use musical_bindings::control::{period_for_rate, sleep_budget, Control, ControlLoop, Status};

#[test]
fn new_loop_is_active_without_binding() {
    let mut c: ControlLoop<u8> = ControlLoop::new();
    assert!(c.is_running());
    assert_eq!(c.period_nanos(), 1_000_000_000 / 90);
    assert_eq!(c.take_binding(), None);
}

#[test]
fn rate_change_sets_period_and_keeps_binding() {
    let mut c: ControlLoop<u8> = ControlLoop::new();
    assert!(c.apply(Control::BindingChanged { binding: 7 }));
    assert!(c.apply(Control::LoopRateChanged { loop_rate_hz: 120 }));
    assert_eq!(c.period_nanos(), 8_333_333);
    assert!(c.is_running());
    assert_eq!(c.take_binding(), Some(7));
}

#[test]
fn period_for_rate_values() {
    assert_eq!(period_for_rate(1), 1_000_000_000);
    assert_eq!(period_for_rate(120), 8_333_333);
    assert_eq!(period_for_rate(90), 11_111_111);
}

#[test]
fn exiting_stops_loop() {
    let mut c: ControlLoop<u8> = ControlLoop::new();
    assert!(!c.apply(Control::Exiting));
}

#[test]
fn paused_loop_runs_no_script() {
    let mut c: ControlLoop<u8> = ControlLoop::new();
    c.apply(Control::BindingChanged { binding: 3 });
    assert!(c.apply(Control::ActiveChanged { active: false }));
    assert!(!c.is_running());
    assert_eq!(c.take_binding(), None);
    c.apply(Control::ActiveChanged { active: true });
    assert_eq!(c.take_binding(), Some(3));
}

#[test]
fn script_error_empties_slot_with_one_status() {
    let mut c: ControlLoop<u8> = ControlLoop::new();
    c.apply(Control::BindingChanged { binding: 5 });
    let b = c.take_binding().unwrap();
    let s = c.script_finished(b, Err("runtime error: boom".to_string()));
    assert_eq!(s, Some(Status::ScriptError { err: "runtime error: boom".to_string() }));
    assert_eq!(c.take_binding(), None);
    assert_eq!(c.take_binding(), None);
}

#[test]
fn script_success_keeps_binding() {
    let mut c: ControlLoop<u8> = ControlLoop::new();
    c.apply(Control::BindingChanged { binding: 5 });
    let b = c.take_binding().unwrap();
    assert_eq!(c.script_finished(b, Ok(())), None);
    assert_eq!(c.take_binding(), Some(5));
}

#[test]
fn fps_counted_and_reset() {
    let mut c: ControlLoop<u8> = ControlLoop::new();
    assert_eq!(c.count_frame(false), None);
    assert_eq!(c.count_frame(false), None);
    assert_eq!(c.count_frame(true), Some(Status::Fps { fps: 3 }));
    assert_eq!(c.count_frame(true), Some(Status::Fps { fps: 1 }));
}

#[test]
fn sleep_budget_values() {
    assert_eq!(sleep_budget(8_333_333, 333_333), 8_000_000);
    assert_eq!(sleep_budget(100, 100), 0);
    assert_eq!(sleep_budget(100, 250), 0);
}
