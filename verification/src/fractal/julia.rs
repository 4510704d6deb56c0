//! Julia sets: iterate `z -> z^2 + c` from `z = point` with a fixed parameter `c`.
use vstd::prelude::*;

use crate::uniforms::{UniformKind, UniformSpec};

use crate::fractal::orbit::{
    deterministic, faithful_clone, is_orbit_from_start, lemma_orbit_from_start_unique,
    orbit_from_start, total,
};
use crate::fractal::FractalType;

verus! {

/// The Julia set of the parameter `c`, drawn with an escape-time iteration
/// budget. `C` is the number type of the parameter.
pub struct Julia<C> {
    pub max_iter: u32,
    /// Starting c value
    pub c: C,
}

impl<C> Julia<C> {
    /// The shader's own uniforms: the iteration budget and the parameter.
    pub fn uniform_descs(&self) -> (v: Vec<UniformSpec>)
        ensures
            v.len() == 2,
            v[0].describes("max_iter"@, UniformKind::Int1, 1),
            v[1].describes("c"@, UniformKind::Float2, 1),
    {
        vec![
            UniformSpec { name: "max_iter", kind: UniformKind::Int1, array_count: 1 },
            UniformSpec { name: "c", kind: UniformKind::Float2, array_count: 1 },
        ]
    }

    /// Sets the iteration budget; the parameter stays.
    pub fn set_max_iter(&mut self, max_iter: u32)
        ensures
            final(self).max_iter == max_iter,
            final(self).c == old(self).c,
    {
        self.max_iter = max_iter;
    }

    /// The iteration budget.
    pub fn max_iter(&self) -> (m: u32)
        ensures
            m == self.max_iter,
    {
        self.max_iter
    }

    /// This is a Julia set.
    pub fn fractal_type(&self) -> (t: FractalType)
        ensures
            t == FractalType::Julia,
    {
        FractalType::Julia
    }

    /// Takes `c` as the new parameter; the iteration budget stays.
    pub fn input_parameter(&mut self, c: C)
        ensures
            final(self).c == c,
            final(self).max_iter == old(self).max_iter,
    {
        self.c = c;
    }

    /// The orbit of `point`: the points `z0 = point, z1, ...` of
    /// `z -> step(z, c)`, at most `max_iter` of them, ending before the first
    /// iterate that escapes.
    pub fn orbit<S: Fn(&C, &C) -> C, E: Fn(&C) -> bool>(&self, point: &C, step: &S, escaped: &E) -> (zs: Vec<C>)
        where C: Clone,
        requires
            total(*step, *escaped),
        ensures
            is_orbit_from_start(*step, *escaped, *point, self.c, self.max_iter, zs@),
            zs.len() <= self.max_iter,
            self.max_iter > 0 ==> zs.len() > 0,
            zs.len() == self.max_iter || exists|z: C|
                step.ensures((&zs@[zs.len() - 1], &self.c), z) && #[trigger] escaped.ensures((&z,), true),
    {
        orbit_from_start(point, &self.c, self.max_iter, step, escaped)
    }
}

/// A Julia set whose parameter is the point itself gives the same orbit as
/// the perturbation renderer's reference orbit of that point (for a
/// deterministic map and escape test and a faithful clone).
pub proof fn lemma_julia_at_point_is_reference_orbit<C: Clone, S: Fn(&C, &C) -> C, E: Fn(&C) -> bool>(
    step: S,
    escaped: E,
    point: C,
    max_iter: u32,
    julia: Seq<C>,
    reference: Seq<C>,
)
    requires
        deterministic(step, escaped),
        faithful_clone::<C>(),
        is_orbit_from_start(step, escaped, point, point, max_iter, julia),
        is_orbit_from_start(step, escaped, point, point, max_iter, reference),
    ensures
        julia == reference,
{
    lemma_orbit_from_start_unique(step, escaped, point, point, max_iter, julia, reference);
}

} // verus!
