//! The fractals the viewer can draw, and the type that names them.
pub mod julia;
pub mod mandelbrot;
pub mod mandelbrot_perturb;
pub mod orbit;

use vstd::prelude::*;

use crate::fractal::julia::Julia;
use crate::fractal::mandelbrot::Mandelbrot;
use crate::fractal::mandelbrot_perturb::MandelbrotPerturb;
use crate::text::str_equals;
use crate::uniforms::{UniformKind, UniformSpec};

verus! {

/// The iteration budget a freshly made fractal starts with.
pub const DEFAULT_MAX_ITER: u32 = 256;

/// The kinds of fractal the viewer can draw, in the order in which the viewer
/// cycles through them.
#[derive(Clone, Copy, Debug, PartialEq, Eq, Structural)]
pub enum FractalType {
    Mandelbrot,
    Julia,
    MandelbrotPerturb,
}

/// A string that names no fractal type was given to `FractalType::parse`.
#[derive(Clone, Copy, Debug, PartialEq, Eq, Structural)]
pub enum ParseFractalTypeError {
    VariantNotFound,
}

impl FractalType {
    /// Position of the type in the cycling order.
    pub open spec fn index(self) -> int {
        match self {
            FractalType::Mandelbrot => 0,
            FractalType::Julia => 1,
            FractalType::MandelbrotPerturb => 2,
        }
    }

    /// The type at position `i` (taken modulo 3) of the cycling order.
    pub open spec fn at(i: int) -> FractalType {
        let k = i % 3;
        if k == 0 {
            FractalType::Mandelbrot
        } else if k == 1 {
            FractalType::Julia
        } else {
            FractalType::MandelbrotPerturb
        }
    }

    /// The name under which the type is shown and parsed.
    pub open spec fn display_name(self) -> Seq<char> {
        match self {
            FractalType::Mandelbrot => "Mandelbrot Set"@,
            FractalType::Julia => "Julia Set"@,
            FractalType::MandelbrotPerturb => "Mandelbrot Set Perturbation"@,
        }
    }

    /// The type that follows this one in the cycling order; the last wraps
    /// around to the first.
    pub fn next(self) -> (r: FractalType)
        ensures
            r == FractalType::at(self.index() + 1),
    {
        match self {
            FractalType::Mandelbrot => FractalType::Julia,
            FractalType::Julia => FractalType::MandelbrotPerturb,
            FractalType::MandelbrotPerturb => FractalType::Mandelbrot,
        }
    }

    /// Every fractal type, in cycling order.
    pub fn all() -> (v: Vec<FractalType>)
        ensures
            v.len() == 3,
            forall|i: int| 0 <= i < 3 ==> #[trigger] v@[i] == FractalType::at(i),
    {
        vec![FractalType::Mandelbrot, FractalType::Julia, FractalType::MandelbrotPerturb]
    }

    /// The name under which the type is shown.
    pub fn name(&self) -> (s: &'static str)
        ensures
            s@ == self.display_name(),
    {
        match self {
            FractalType::Mandelbrot => "Mandelbrot Set",
            FractalType::Julia => "Julia Set",
            FractalType::MandelbrotPerturb => "Mandelbrot Set Perturbation",
        }
    }

    /// The type whose name is exactly `s`.
    pub fn parse(s: &str) -> (r: Result<FractalType, ParseFractalTypeError>)
        ensures
            forall|t: FractalType| (r == Ok::<FractalType, ParseFractalTypeError>(t)) <==> (
            #[trigger] t.display_name()) == s@,
            r is Err ==> r == Err::<FractalType, ParseFractalTypeError>(
                ParseFractalTypeError::VariantNotFound,
            ),
    {
        let r = if str_equals(s, "Mandelbrot Set") {
            Ok(FractalType::Mandelbrot)
        } else if str_equals(s, "Julia Set") {
            Ok(FractalType::Julia)
        } else if str_equals(s, "Mandelbrot Set Perturbation") {
            Ok(FractalType::MandelbrotPerturb)
        } else {
            Err(ParseFractalTypeError::VariantNotFound)
        };
        assert forall|t: FractalType| (r == Ok::<FractalType, ParseFractalTypeError>(t)) <==> (
        #[trigger] t.display_name()) == s@ by {
            match r {
                Ok(t0) => lemma_names_distinct(t, t0),
                Err(_) => match t {
                    FractalType::Mandelbrot => {},
                    FractalType::Julia => {},
                    FractalType::MandelbrotPerturb => {},
                },
            }
        }
        r
    }

    /// A fresh fractal of this type with the default iteration budget; a Julia
    /// set starts from the parameter `julia_c`.
    pub fn make<C>(&self, julia_c: C) -> (f: AnyFractal<C>)
        ensures
            f.kind() == *self,
            f.iteration_limit() == DEFAULT_MAX_ITER,
            f matches AnyFractal::Julia(j) ==> j.c == julia_c,
    {
        match *self {
            FractalType::Mandelbrot => AnyFractal::Mandelbrot(Mandelbrot { max_iter: DEFAULT_MAX_ITER }),
            FractalType::Julia => AnyFractal::Julia(Julia { max_iter: DEFAULT_MAX_ITER, c: julia_c }),
            FractalType::MandelbrotPerturb => AnyFractal::MandelbrotPerturb(
                MandelbrotPerturb { max_iter: DEFAULT_MAX_ITER },
            ),
        }
    }
}

/// Two types with the same name are the same type, so a name parses back to
/// the type it names.
pub proof fn lemma_names_distinct(t1: FractalType, t2: FractalType)
    ensures
        t1.display_name() == t2.display_name() ==> t1 == t2,
{
    reveal_strlit("Mandelbrot Set");
    reveal_strlit("Julia Set");
    reveal_strlit("Mandelbrot Set Perturbation");
    if t1.display_name() == t2.display_name() && t1 != t2 {
        assert(t1.display_name().len() != t2.display_name().len());
    }
}

/// `next` walks the types in their declared order and wraps around: from any
/// type, the next one is different, and three steps come back to the start.
pub proof fn lemma_next_cycles(t: FractalType)
    ensures
        FractalType::at(t.index()) == t,
        FractalType::at(t.index() + 1) != t,
        FractalType::at(FractalType::at(FractalType::at(t.index() + 1).index() + 1).index() + 1) == t,
{
}

/// Every type is reached from every other one by `next`: the cycle holds all
/// three types.
pub proof fn lemma_next_reaches_all(t: FractalType, u: FractalType)
    ensures
        u == t || u == FractalType::at(t.index() + 1) || u == FractalType::at(
            FractalType::at(t.index() + 1).index() + 1,
        ),
{
}

/// Any one of the fractals, with `C` the number type of the Julia parameter.
pub enum AnyFractal<C> {
    Mandelbrot(Mandelbrot),
    Julia(Julia<C>),
    MandelbrotPerturb(MandelbrotPerturb),
}

impl<C> AnyFractal<C> {
    /// The type of the fractal held.
    pub open spec fn kind(&self) -> FractalType {
        match self {
            AnyFractal::Mandelbrot(_) => FractalType::Mandelbrot,
            AnyFractal::Julia(_) => FractalType::Julia,
            AnyFractal::MandelbrotPerturb(_) => FractalType::MandelbrotPerturb,
        }
    }

    /// The iteration budget of the fractal held.
    pub open spec fn iteration_limit(&self) -> u32 {
        match self {
            AnyFractal::Mandelbrot(m) => m.max_iter,
            AnyFractal::Julia(j) => j.max_iter,
            AnyFractal::MandelbrotPerturb(p) => p.max_iter,
        }
    }

    /// The fractal with its iteration budget replaced by `max_iter`.
    pub open spec fn with_max_iter(self, max_iter: u32) -> AnyFractal<C> {
        match self {
            AnyFractal::Mandelbrot(m) => AnyFractal::Mandelbrot(Mandelbrot { max_iter }),
            AnyFractal::Julia(j) => AnyFractal::Julia(Julia { max_iter, c: j.c }),
            AnyFractal::MandelbrotPerturb(p) => AnyFractal::MandelbrotPerturb(MandelbrotPerturb { max_iter }),
        }
    }

    /// The fractal after `point` is fed into it: a Julia set takes it as its
    /// parameter, the other fractals stay as they are.
    pub open spec fn with_input(self, point: C) -> AnyFractal<C> {
        match self {
            AnyFractal::Julia(j) => AnyFractal::Julia(Julia { max_iter: j.max_iter, c: point }),
            _ => self,
        }
    }

    /// The iteration budget (for escape-time fractals).
    pub fn max_iter(&self) -> (m: u32)
        ensures
            m == self.iteration_limit(),
    {
        match self {
            AnyFractal::Mandelbrot(m) => m.max_iter(),
            AnyFractal::Julia(j) => j.max_iter(),
            AnyFractal::MandelbrotPerturb(p) => p.max_iter(),
        }
    }

    /// Sets the iteration budget; nothing else changes.
    pub fn set_max_iter(&mut self, max_iter: u32)
        ensures
            *final(self) == old(self).with_max_iter(max_iter),
    {
        match self {
            AnyFractal::Mandelbrot(m) => m.set_max_iter(max_iter),
            AnyFractal::Julia(j) => j.set_max_iter(max_iter),
            AnyFractal::MandelbrotPerturb(p) => p.set_max_iter(max_iter),
        }
    }

    /// The uniforms of the shader of the fractal held.
    pub fn uniform_descs(&self) -> (v: Vec<UniformSpec>)
        ensures
            v.len() >= 1,
            v[0].describes("max_iter"@, UniformKind::Int1, 1),
            match self {
                AnyFractal::Mandelbrot(_) => v.len() == 1,
                AnyFractal::Julia(_) => v.len() == 2 && v[1].describes("c"@, UniformKind::Float2, 1),
                AnyFractal::MandelbrotPerturb(p) => {
                    &&& v.len() == 3
                    &&& v[1].describes("reference_orbit"@, UniformKind::Float2, p.max_iter as nat)
                    &&& v[2].describes("reference_orbit_length"@, UniformKind::Int1, 1)
                },
            },
    {
        match self {
            AnyFractal::Mandelbrot(m) => m.uniform_descs(),
            AnyFractal::Julia(j) => j.uniform_descs(),
            AnyFractal::MandelbrotPerturb(p) => p.uniform_descs(),
        }
    }

    /// The type of the fractal held.
    pub fn fractal_type(&self) -> (t: FractalType)
        ensures
            t == self.kind(),
    {
        match self {
            AnyFractal::Mandelbrot(m) => m.fractal_type(),
            AnyFractal::Julia(j) => j.fractal_type(),
            AnyFractal::MandelbrotPerturb(p) => p.fractal_type(),
        }
    }

    /// Feeds a value into the fractal: a Julia set takes it as its parameter,
    /// the other fractals take no input and stay as they are.
    pub fn input_parameter(&mut self, point: C)
        ensures
            *final(self) == old(self).with_input(point),
    {
        match self {
            AnyFractal::Julia(j) => j.input_parameter(point),
            _ => {},
        }
    }
}

/// Setting the budget and reading it back gives the budget set; the type and
/// the Julia parameter stay.
pub proof fn lemma_max_iter_read_back<C>(f: AnyFractal<C>, max_iter: u32)
    ensures
        f.with_max_iter(max_iter).iteration_limit() == max_iter,
        f.with_max_iter(max_iter).kind() == f.kind(),
        f.with_max_iter(max_iter).with_max_iter(f.iteration_limit()) == f,
        f matches AnyFractal::Julia(j0) ==> (f.with_max_iter(max_iter) matches AnyFractal::Julia(j1)
            && j1.c == j0.c),
{
}

/// A value fed into a Julia set becomes its parameter; feeding never changes
/// the type or the budget, and the other fractals ignore it.
pub proof fn lemma_input_read_back<C>(f: AnyFractal<C>, point: C)
    ensures
        f.with_input(point).kind() == f.kind(),
        f.with_input(point).iteration_limit() == f.iteration_limit(),
        f.with_input(point) matches AnyFractal::Julia(j) ==> j.c == point,
        !(f is Julia) ==> f.with_input(point) == f,
{
}

} // verus!
