use fractal_view::controls::{Command, Effects, ViewerControls};
use fractal_view::fractal::FractalType;
use fractal_view::renderer::{RenderPlan, RenderState};

#[test]
fn first_cached_render_renders_and_creates_target() {
    let mut r = RenderState::new();
    assert!(!r.can_draw());
    let plan = r.cached_render(false, (800, 600));
    assert_eq!(plan, RenderPlan { render: true, new_target: true });
    assert!(r.can_draw());
}

#[test]
fn same_view_is_not_rendered_twice() {
    let mut r = RenderState::new();
    r.cached_render(false, (800, 600));
    let plan = r.cached_render(true, (800, 600));
    assert_eq!(plan, RenderPlan { render: false, new_target: false });
}

#[test]
fn changed_view_renders_and_reuses_target() {
    let mut r = RenderState::new();
    r.cached_render(false, (800, 600));
    let plan = r.cached_render(false, (800, 600));
    assert_eq!(plan, RenderPlan { render: true, new_target: false });
    let plan = r.cached_render(false, (1024, 600));
    assert_eq!(plan, RenderPlan { render: true, new_target: true });
}

#[test]
fn invalidate_forces_a_render() {
    let mut r = RenderState::new();
    r.cached_render(false, (10, 10));
    r.invalidate();
    let plan = r.cached_render(true, (10, 10));
    assert_eq!(plan, RenderPlan { render: true, new_target: false });
    assert_eq!(r.cached_render(true, (10, 10)).render, false);
}

#[test]
fn forced_render_reports_new_target() {
    let mut r = RenderState::new();
    assert!(r.render((3, 4)));
    assert!(!r.render((3, 4)));
    assert!(r.render((4, 3)));
    assert!(r.can_draw());
}

#[test]
fn controls_start_state() {
    let c = ViewerControls::new();
    assert_eq!(c.fractal, FractalType::Mandelbrot);
    assert!(c.draw_overlay);
    assert!(!c.draw_orbits);
    assert!(!c.fractal_input);
}

#[test]
fn switch_fractal_cycles_and_resets() {
    let mut c = ViewerControls::new();
    let e = c.apply(Command::SwitchFractal);
    assert_eq!(e, Effects { set_fractal: Some(FractalType::Julia), reset_view: true });
    c.apply(Command::SwitchFractal);
    assert_eq!(c.fractal, FractalType::MandelbrotPerturb);
    c.apply(Command::SwitchFractal);
    assert_eq!(c.fractal, FractalType::Mandelbrot);
}

#[test]
fn toggles_flip_and_undo() {
    let start = ViewerControls::new();
    let mut c = start;
    let e = c.apply(Command::ToggleOrbits);
    assert_eq!(e, Effects { set_fractal: None, reset_view: false });
    assert!(c.draw_orbits);
    c.apply(Command::ToggleOverlay);
    assert!(!c.draw_overlay);
    c.apply(Command::ToggleInput);
    assert!(c.fractal_input);
    c.apply(Command::ToggleOrbits);
    c.apply(Command::ToggleOverlay);
    c.apply(Command::ToggleInput);
    assert_eq!(c, start);
}

#[test]
fn reset_view_only_resets() {
    let mut c = ViewerControls::new();
    let e = c.apply(Command::ResetView);
    assert_eq!(e, Effects { set_fractal: None, reset_view: true });
    assert_eq!(c, ViewerControls::new());
}

#[test]
fn input_needs_enabled_point_and_motion() {
    let mut c = ViewerControls::new();
    assert!(!c.should_input(true, true));
    c.apply(Command::ToggleInput);
    assert!(c.should_input(true, true));
    assert!(!c.should_input(false, true));
    assert!(!c.should_input(true, false));
}

#[test]
fn forced_render_then_cached_render_of_same_view_plans_nothing() {
    let mut r = RenderState::new();
    assert!(r.render((800, 600)));
    let plan = r.cached_render(true, (800, 600));
    assert_eq!(plan, RenderPlan { render: false, new_target: false });
    assert!(r.can_draw());
}

#[test]
fn forced_render_after_invalidate_clears_it() {
    let mut r = RenderState::new();
    r.cached_render(false, (5, 5));
    r.invalidate();
    r.render((5, 5));
    assert_eq!(r.cached_render(true, (5, 5)).render, false);
}
