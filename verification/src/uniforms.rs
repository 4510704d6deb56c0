//! The uniform variables that the fractal shaders declare: their names, types
//! and array lengths. Handing them to the GPU happens outside.
use vstd::prelude::*;

verus! {

/// The type of a shader uniform.
#[derive(Clone, Copy, Debug, PartialEq, Eq, Structural)]
pub enum UniformKind {
    /// One `int`.
    Int1,
    /// One `float`.
    Float1,
    /// A `vec2`.
    Float2,
}

/// A uniform variable of a shader.
#[derive(Clone, Copy, Debug)]
pub struct UniformSpec {
    pub name: &'static str,
    pub kind: UniformKind,
    /// Number of elements; 1 for a variable that is not an array.
    pub array_count: usize,
}

impl UniformSpec {
    /// The uniform is called `name`, has type `kind` and `count` elements.
    pub open spec fn describes(self, name: Seq<char>, kind: UniformKind, count: nat) -> bool {
        &&& self.name@ == name
        &&& self.kind == kind
        &&& self.array_count == count
    }
}

/// The uniforms with which every fractal shader learns which part of the
/// plane it draws and on how many pixels.
pub fn view_uniform_descs() -> (v: Vec<UniformSpec>)
    ensures
        v.len() == 7,
        v[0].describes("base_re"@, UniformKind::Float1, 1),
        v[1].describes("scale_re"@, UniformKind::Float1, 1),
        v[2].describes("base_im"@, UniformKind::Float1, 1),
        v[3].describes("scale_im"@, UniformKind::Float1, 1),
        v[4].describes("pixel_dimensions"@, UniformKind::Float2, 1),
        v[5].describes("display_dimensions"@, UniformKind::Float2, 1),
        v[6].describes("viewport_dimensions"@, UniformKind::Float2, 1),
{
    vec![
        UniformSpec { name: "base_re", kind: UniformKind::Float1, array_count: 1 },
        UniformSpec { name: "scale_re", kind: UniformKind::Float1, array_count: 1 },
        UniformSpec { name: "base_im", kind: UniformKind::Float1, array_count: 1 },
        UniformSpec { name: "scale_im", kind: UniformKind::Float1, array_count: 1 },
        UniformSpec { name: "pixel_dimensions", kind: UniformKind::Float2, array_count: 1 },
        UniformSpec { name: "display_dimensions", kind: UniformKind::Float2, array_count: 1 },
        UniformSpec { name: "viewport_dimensions", kind: UniformKind::Float2, array_count: 1 },
    ]
}

} // verus!
