//! The Mandelbrot set: iterate `z -> z^2 + c` from `z = c`.
use vstd::prelude::*;

use crate::uniforms::{UniformKind, UniformSpec};

use crate::fractal::orbit::{is_orbit_after_step, orbit_after_step, total};
use crate::fractal::FractalType;

verus! {

/// The Mandelbrot set, drawn with an escape-time iteration budget.
pub struct Mandelbrot {
    pub max_iter: u32,
}

impl Mandelbrot {
    /// The shader's own uniforms: the iteration budget.
    pub fn uniform_descs(&self) -> (v: Vec<UniformSpec>)
        ensures
            v.len() == 1,
            v[0].describes("max_iter"@, UniformKind::Int1, 1),
    {
        vec![UniformSpec { name: "max_iter", kind: UniformKind::Int1, array_count: 1 }]
    }

    /// Sets the iteration budget.
    pub fn set_max_iter(&mut self, max_iter: u32)
        ensures
            final(self).max_iter == max_iter,
    {
        self.max_iter = max_iter;
    }

    /// The iteration budget.
    pub fn max_iter(&self) -> (m: u32)
        ensures
            m == self.max_iter,
    {
        self.max_iter
    }

    /// This is a Mandelbrot set.
    pub fn fractal_type(&self) -> (t: FractalType)
        ensures
            t == FractalType::Mandelbrot,
    {
        FractalType::Mandelbrot
    }

    /// The orbit of `point`: the iterates `z1, z2, ...` of `z -> step(z, point)`
    /// from `z0 = point` (`z0` itself is not part of it), at most `max_iter` of
    /// them, ending with the first iterate that escapes.
    pub fn orbit<Z, S: Fn(&Z, &Z) -> Z, E: Fn(&Z) -> bool>(
        &self,
        point: &Z,
        step: &S,
        escaped: &E,
    ) -> (zs: Vec<Z>)
        requires
            total(*step, *escaped),
        ensures
            is_orbit_after_step(*step, *escaped, *point, *point, self.max_iter, zs@),
            zs.len() <= self.max_iter,
            self.max_iter > 0 ==> zs.len() > 0,
            zs.len() == self.max_iter || escaped.ensures((&zs@[zs.len() - 1],), true),
    {
        orbit_after_step(point, point, self.max_iter, step, escaped)
    }
}

} // verus!
