//! The viewer's settings and what each user command does to them.
//!
//! Reading the keyboard and carrying out the effects (swapping the fractal in
//! the renderer, resetting the view) is left to the caller.
use vstd::prelude::*;

use crate::fractal::FractalType;

verus! {

/// A user command of the viewer.
#[derive(Clone, Copy, Debug, PartialEq, Eq, Structural)]
pub enum Command {
    /// Reset the view to the one it started with.
    ResetView,
    /// Swap to the next kind of fractal.
    SwitchFractal,
    /// Enable/disable drawing the orbit of the point under the mouse.
    ToggleOrbits,
    /// Enable/disable the overlay.
    ToggleOverlay,
    /// Enable/disable feeding the point under the mouse into the fractal.
    ToggleInput,
}

/// The viewer's settings.
#[derive(Clone, Copy, Debug, PartialEq, Eq, Structural)]
pub struct ViewerControls {
    pub fractal: FractalType,
    pub draw_orbits: bool,
    pub draw_overlay: bool,
    pub fractal_input: bool,
}

/// What the caller must do after a command.
#[derive(Clone, Copy, Debug, PartialEq, Eq, Structural)]
pub struct Effects {
    /// Give the renderer a fresh fractal of this type.
    pub set_fractal: Option<FractalType>,
    /// Reset the view.
    pub reset_view: bool,
}

/// The settings and effects after `cmd`.
pub open spec fn spec_apply(s: ViewerControls, cmd: Command) -> (ViewerControls, Effects) {
    let none = Effects { set_fractal: None, reset_view: false };
    match cmd {
        Command::ResetView => (s, Effects { set_fractal: None, reset_view: true }),
        Command::SwitchFractal => {
            let t = FractalType::at(s.fractal.index() + 1);
            (ViewerControls { fractal: t, ..s }, Effects { set_fractal: Some(t), reset_view: true })
        },
        Command::ToggleOrbits => (ViewerControls { draw_orbits: !s.draw_orbits, ..s }, none),
        Command::ToggleOverlay => (ViewerControls { draw_overlay: !s.draw_overlay, ..s }, none),
        Command::ToggleInput => (ViewerControls { fractal_input: !s.fractal_input, ..s }, none),
    }
}

impl ViewerControls {
    /// The settings at start: the Mandelbrot set, with the overlay shown, no
    /// orbits drawn and no input fed into the fractal.
    pub fn new() -> (s: ViewerControls)
        ensures
            s == (ViewerControls {
                fractal: FractalType::Mandelbrot,
                draw_orbits: false,
                draw_overlay: true,
                fractal_input: false,
            }),
    {
        ViewerControls {
            fractal: FractalType::Mandelbrot,
            draw_orbits: false,
            draw_overlay: true,
            fractal_input: false,
        }
    }

    /// Carries out `cmd` on the settings and returns what else must happen.
    pub fn apply(&mut self, cmd: Command) -> (e: Effects)
        ensures
            (*final(self), e) == spec_apply(*old(self), cmd),
    {
        match cmd {
            Command::ResetView => Effects { set_fractal: None, reset_view: true },
            Command::SwitchFractal => {
                let t = self.fractal.next();
                self.fractal = t;
                Effects { set_fractal: Some(t), reset_view: true }
            },
            Command::ToggleOrbits => {
                self.draw_orbits = !self.draw_orbits;
                Effects { set_fractal: None, reset_view: false }
            },
            Command::ToggleOverlay => {
                self.draw_overlay = !self.draw_overlay;
                Effects { set_fractal: None, reset_view: false }
            },
            Command::ToggleInput => {
                self.fractal_input = !self.fractal_input;
                Effects { set_fractal: None, reset_view: false }
            },
        }
    }

    /// Whether the point under the mouse is fed into the fractal this frame:
    /// input is enabled, the mouse is over the view, and it has moved.
    pub fn should_input(&self, has_point: bool, mouse_moved: bool) -> (r: bool)
        ensures
            r == (self.fractal_input && has_point && mouse_moved),
    {
        self.fractal_input && has_point && mouse_moved
    }
}

/// Each toggle flips its own setting and nothing else, and asks for no
/// further effect.
pub proof fn lemma_toggle_flips_only_its_setting(s: ViewerControls)
    ensures
        ({
            let (t, e) = spec_apply(s, Command::ToggleOrbits);
            &&& t.draw_orbits == !s.draw_orbits
            &&& t.draw_overlay == s.draw_overlay
            &&& t.fractal_input == s.fractal_input
            &&& t.fractal == s.fractal
            &&& e.set_fractal is None && !e.reset_view
        }),
        ({
            let (t, e) = spec_apply(s, Command::ToggleOverlay);
            &&& t.draw_overlay == !s.draw_overlay
            &&& t.draw_orbits == s.draw_orbits
            &&& t.fractal_input == s.fractal_input
            &&& t.fractal == s.fractal
            &&& e.set_fractal is None && !e.reset_view
        }),
        ({
            let (t, e) = spec_apply(s, Command::ToggleInput);
            &&& t.fractal_input == !s.fractal_input
            &&& t.draw_orbits == s.draw_orbits
            &&& t.draw_overlay == s.draw_overlay
            &&& t.fractal == s.fractal
            &&& e.set_fractal is None && !e.reset_view
        }),
{
}

/// Resetting the view changes no setting; it only asks for the view reset.
pub proof fn lemma_reset_view_keeps_settings(s: ViewerControls)
    ensures
        spec_apply(s, Command::ResetView).0 == s,
        spec_apply(s, Command::ResetView).1.reset_view,
        spec_apply(s, Command::ResetView).1.set_fractal is None,
{
}

/// Switching the fractal moves to the next type, hands that type over and
/// resets the view, and leaves the three toggles as they were.
pub proof fn lemma_switch_keeps_toggles(s: ViewerControls)
    ensures
        ({
            let (t, e) = spec_apply(s, Command::SwitchFractal);
            &&& t.fractal == FractalType::at(s.fractal.index() + 1)
            &&& t.draw_orbits == s.draw_orbits
            &&& t.draw_overlay == s.draw_overlay
            &&& t.fractal_input == s.fractal_input
            &&& e.set_fractal == Some(t.fractal)
            &&& e.reset_view
        }),
{
}

/// Every toggle undoes itself: the same toggle twice restores the settings.
pub proof fn lemma_toggle_twice(s: ViewerControls, cmd: Command)
    requires
        cmd == Command::ToggleOrbits || cmd == Command::ToggleOverlay || cmd == Command::ToggleInput,
    ensures
        spec_apply(spec_apply(s, cmd).0, cmd).0 == s,
        spec_apply(s, cmd).1 == (Effects { set_fractal: None, reset_view: false }),
{
}

/// Switching the fractal three times comes back to the fractal one started
/// with, and every switch resets the view and hands over the new fractal.
pub proof fn lemma_switch_cycles(s: ViewerControls)
    ensures
        ({
            let s1 = spec_apply(s, Command::SwitchFractal);
            let s2 = spec_apply(s1.0, Command::SwitchFractal);
            let s3 = spec_apply(s2.0, Command::SwitchFractal);
            &&& s3.0 == s
            &&& s1.1.reset_view && s2.1.reset_view && s3.1.reset_view
            &&& s1.1.set_fractal == Some(s1.0.fractal)
            &&& s1.0.fractal != s.fractal
        }),
{
}

} // verus!
