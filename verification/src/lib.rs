//! The logic of an interactive escape-time fractal viewer: the fractal types
//! and their cycling order, escape-time orbits over any number type, the
//! shader-source templating of the perturbation renderer, the decisions of the
//! cached renderer, and the viewer's command handling.
pub mod controls;
pub mod fractal;
pub mod renderer;
pub mod text;
pub mod uniforms;
