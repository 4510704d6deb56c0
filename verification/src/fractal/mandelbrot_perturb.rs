//! The Mandelbrot set drawn by perturbation around a high-precision reference
//! orbit, which the shader receives as a fixed-size array.
use vstd::prelude::*;

use crate::uniforms::{UniformKind, UniformSpec};

use crate::fractal::orbit::{is_orbit_from_start, orbit_from_start, total};
use crate::fractal::FractalType;
use crate::text::{
    decimal, decimal_string, disjoint_chars, found_at, lemma_decimal_denotes,
    lemma_replace_leaves_no_pattern, replace_all, replace_str,
};

verus! {

/// The marker in the shader template that stands for the size of the
/// reference-orbit array.
pub const SIZE_PLACEHOLDER: &'static str = "$size$";

/// The Mandelbrot set rendered by perturbation theory.
pub struct MandelbrotPerturb {
    pub max_iter: u32,
}

impl MandelbrotPerturb {
    /// The shader's own uniforms: the iteration budget, the reference orbit
    /// as an array of `max_iter` points, and the orbit's real length.
    pub fn uniform_descs(&self) -> (v: Vec<UniformSpec>)
        ensures
            v.len() == 3,
            v[0].describes("max_iter"@, UniformKind::Int1, 1),
            v[1].describes("reference_orbit"@, UniformKind::Float2, self.max_iter as nat),
            v[2].describes("reference_orbit_length"@, UniformKind::Int1, 1),
    {
        vec![
            UniformSpec { name: "max_iter", kind: UniformKind::Int1, array_count: 1 },
            UniformSpec {
                name: "reference_orbit",
                kind: UniformKind::Float2,
                array_count: self.max_iter as usize,
            },
            UniformSpec { name: "reference_orbit_length", kind: UniformKind::Int1, array_count: 1 },
        ]
    }

    /// Sets the iteration budget.
    pub fn set_max_iter(&mut self, max_iter: u32)
        ensures
            final(self).max_iter == max_iter,
    {
        self.max_iter = max_iter;
    }

    /// The iteration budget.
    pub fn max_iter(&self) -> (m: u32)
        ensures
            m == self.max_iter,
    {
        self.max_iter
    }

    /// This is the perturbation renderer of the Mandelbrot set.
    pub fn fractal_type(&self) -> (t: FractalType)
        ensures
            t == FractalType::MandelbrotPerturb,
    {
        FractalType::MandelbrotPerturb
    }

    /// The fragment shader: `template` with every `$size$` replaced by the
    /// iteration budget written in decimal.
    pub fn fragment_shader(&self, template: &str) -> (s: String)
        ensures
            s@ == replace_all(template@, SIZE_PLACEHOLDER@, decimal(self.max_iter as nat)),
    {
        let size = decimal_string(self.max_iter);
        proof {
            reveal_strlit("$size$");
        }
        replace_str(template, SIZE_PLACEHOLDER, size.as_str())
    }

    /// The reference orbit of `point`: the points `z0 = point, z1, ...` of
    /// `z -> step(z, point)`, at most `max_iter` of them, ending before the
    /// first iterate that escapes.
    pub fn orbit<Z: Clone, S: Fn(&Z, &Z) -> Z, E: Fn(&Z) -> bool>(
        &self,
        point: &Z,
        step: &S,
        escaped: &E,
    ) -> (zs: Vec<Z>)
        requires
            total(*step, *escaped),
        ensures
            is_orbit_from_start(*step, *escaped, *point, *point, self.max_iter, zs@),
            zs.len() <= self.max_iter,
            self.max_iter > 0 ==> zs.len() > 0,
            zs.len() == self.max_iter || exists|z: Z|
                step.ensures((&zs@[zs.len() - 1], point), z) && #[trigger] escaped.ensures((&z,), true),
    {
        orbit_from_start(point, point, self.max_iter, step, escaped)
    }

    /// The reference orbit as the shader takes it: cut or padded with `fill`
    /// to exactly `max_iter` entries, together with the number of entries the
    /// orbit really had.
    pub fn reference_orbit<T: Copy>(&self, orbit: Vec<T>, fill: T) -> (r: (Vec<T>, usize))
        ensures
            r.1 == orbit.len(),
            r.0.len() == self.max_iter,
            forall|i: int| 0 <= i < self.max_iter ==> #[trigger] r.0@[i] == if i < orbit.len() {
                orbit@[i]
            } else {
                fill
            },
    {
        let len = orbit.len();
        let size = self.max_iter as usize;
        let mut padded: Vec<T> = Vec::new();
        let mut i: usize = 0;
        while i < size
            invariant
                size == self.max_iter,
                len == orbit.len(),
                i <= size,
                padded.len() == i,
                forall|k: int| 0 <= k < i ==> #[trigger] padded@[k] == if k < len {
                    orbit@[k]
                } else {
                    fill
                },
            decreases size - i,
        {
            if i < len {
                padded.push(orbit[i]);
            } else {
                padded.push(fill);
            }
            i = i + 1;
        }
        (padded, len)
    }
}

/// The fragment shader keeps no `$size$` marker: every one is replaced by the
/// budget, and the digits put in its place cannot form a new one.
pub proof fn lemma_shader_has_no_placeholder(template: Seq<char>, max_iter: u32)
    ensures
        forall|k: int|
            !found_at(
                replace_all(template, SIZE_PLACEHOLDER@, decimal(max_iter as nat)),
                SIZE_PLACEHOLDER@,
                k,
            ),
{
    reveal_strlit("$size$");
    let digits = decimal(max_iter as nat);
    lemma_decimal_denotes(max_iter as nat);
    assert(disjoint_chars(digits, SIZE_PLACEHOLDER@)) by {
        assert forall|i: int, j: int| 0 <= i < digits.len() && 0 <= j < SIZE_PLACEHOLDER@.len() implies digits[i]
            != SIZE_PLACEHOLDER@[j] by {
            assert('0' <= digits[i] <= '9');
        }
    }
    lemma_replace_leaves_no_pattern(template, SIZE_PLACEHOLDER@, digits);
}

} // verus!
