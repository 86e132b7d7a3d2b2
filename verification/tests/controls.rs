use navier_stokes_vulkan::controls::{
    control_for_key, Adjust, Control, Controls, KeyInput, Response, MAX_PRESSURE_ITERS,
    MIN_PRESSURE_ITERS,
};

fn chars(s: &str) -> KeyInput {
    KeyInput::Character(s.chars().collect())
}

fn quiet() -> Response {
    Response {
        restart_clock: false,
        update_title: false,
        clear_pending_splats: false,
        exit: false,
        speed: Adjust::Keep,
        viscosity: Adjust::Keep,
    }
}

#[test]
fn key_bindings() {
    assert_eq!(control_for_key(true, &KeyInput::Space), Some(Control::TogglePause));
    assert_eq!(control_for_key(true, &KeyInput::ArrowUp), Some(Control::SpeedUp));
    assert_eq!(control_for_key(true, &KeyInput::ArrowDown), Some(Control::SpeedDown));
    assert_eq!(control_for_key(true, &KeyInput::Escape), Some(Control::Quit));
    assert_eq!(control_for_key(true, &chars("v")), Some(Control::ViscosityDown));
    assert_eq!(control_for_key(true, &chars("b")), Some(Control::ViscosityUp));
    assert_eq!(control_for_key(true, &chars("[")), Some(Control::FewerPressureIterations));
    assert_eq!(control_for_key(true, &chars("]")), Some(Control::MorePressureIterations));
    assert_eq!(control_for_key(true, &chars("r")), Some(Control::Reset));
}

#[test]
fn letters_match_in_either_case() {
    assert_eq!(control_for_key(true, &chars("V")), Some(Control::ViscosityDown));
    assert_eq!(control_for_key(true, &chars("B")), Some(Control::ViscosityUp));
    assert_eq!(control_for_key(true, &chars("R")), Some(Control::Reset));
}

#[test]
fn unbound_and_released_keys() {
    assert_eq!(control_for_key(true, &chars("x")), None);
    assert_eq!(control_for_key(true, &chars("vv")), None);
    assert_eq!(control_for_key(true, &chars("")), None);
    assert_eq!(control_for_key(true, &KeyInput::Other), None);
    assert_eq!(control_for_key(false, &KeyInput::Space), None);
    assert_eq!(control_for_key(false, &chars("r")), None);
    let mut c = Controls::new();
    let before = c;
    assert_eq!(c.handle_key(false, &KeyInput::Escape), quiet());
    assert_eq!(c.handle_key(true, &chars("q")), quiet());
    assert_eq!(c, before);
}

#[test]
fn start_up_settings() {
    let c = Controls::new();
    assert_eq!(c, Controls { paused: false, pressure_iters: 44, reset_requested: true });
}

#[test]
fn pause_toggles_and_restarts_clock() {
    let mut c = Controls::new();
    let r = c.handle_key(true, &KeyInput::Space);
    assert!(c.paused);
    assert_eq!(r, Response { restart_clock: true, update_title: true, ..quiet() });
    c.handle_key(true, &KeyInput::Space);
    assert!(!c.paused);
}

#[test]
fn speed_and_viscosity_are_delegated() {
    let mut c = Controls::new();
    let before = c;
    assert_eq!(c.apply(Control::SpeedUp).speed, Adjust::Raise);
    assert_eq!(c.apply(Control::SpeedDown).speed, Adjust::Lower);
    assert_eq!(c.apply(Control::ViscosityUp).viscosity, Adjust::Raise);
    let r = c.apply(Control::ViscosityDown);
    assert_eq!(r, Response { update_title: true, viscosity: Adjust::Lower, ..quiet() });
    assert_eq!(c, before);
}

#[test]
fn pressure_iterations_clamp() {
    let mut c = Controls::new();
    for _ in 0..30 {
        c.handle_key(true, &chars("]"));
    }
    assert_eq!(c.pressure_iters, MAX_PRESSURE_ITERS);
    for _ in 0..30 {
        c.handle_key(true, &chars("["));
    }
    assert_eq!(c.pressure_iters, MIN_PRESSURE_ITERS);
}

#[test]
fn pressure_iteration_steps() {
    let mut c = Controls::new();
    c.apply(Control::MorePressureIterations);
    assert_eq!(c.pressure_iters, 52);
    c.apply(Control::FewerPressureIterations);
    c.apply(Control::FewerPressureIterations);
    assert_eq!(c.pressure_iters, 36);
    c.pressure_iters = 3;
    c.apply(Control::FewerPressureIterations);
    assert_eq!(c.pressure_iters, 8);
    c.pressure_iters = 157;
    c.apply(Control::MorePressureIterations);
    assert_eq!(c.pressure_iters, 160);
    c.pressure_iters = 400;
    c.apply(Control::FewerPressureIterations);
    assert_eq!(c.pressure_iters, 392);
}

#[test]
fn iteration_keys_undo_each_other() {
    for p in 8u32..=152 {
        let mut c = Controls { paused: false, pressure_iters: p, reset_requested: false };
        c.apply(Control::MorePressureIterations);
        c.apply(Control::FewerPressureIterations);
        assert_eq!(c.pressure_iters, p);
    }
    for p in 16u32..=160 {
        let mut c = Controls { paused: false, pressure_iters: p, reset_requested: false };
        c.apply(Control::FewerPressureIterations);
        c.apply(Control::MorePressureIterations);
        assert_eq!(c.pressure_iters, p);
    }
}

#[test]
fn iterations_stay_in_range() {
    let all = [
        Control::TogglePause,
        Control::SpeedUp,
        Control::SpeedDown,
        Control::ViscosityDown,
        Control::ViscosityUp,
        Control::FewerPressureIterations,
        Control::MorePressureIterations,
        Control::Reset,
        Control::Quit,
    ];
    for p in 8u32..=160 {
        for control in all {
            let mut c = Controls { paused: false, pressure_iters: p, reset_requested: false };
            c.apply(control);
            assert!((8..=160).contains(&c.pressure_iters));
        }
    }
}

#[test]
fn reset_and_quit() {
    let mut c = Controls { paused: true, pressure_iters: 44, reset_requested: false };
    let r = c.handle_key(true, &chars("R"));
    assert!(c.reset_requested);
    assert_eq!(r, Response { restart_clock: true, clear_pending_splats: true, ..quiet() });
    let r = c.handle_key(true, &KeyInput::Escape);
    assert_eq!(r, Response { exit: true, ..quiet() });
}
