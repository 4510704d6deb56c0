use fractal_view::fractal::julia::Julia;
use fractal_view::fractal::mandelbrot::Mandelbrot;
use fractal_view::fractal::mandelbrot_perturb::MandelbrotPerturb;
use fractal_view::fractal::FractalType;
use fractal_view::uniforms::{view_uniform_descs, UniformKind, UniformSpec};

fn summary(v: &[UniformSpec]) -> Vec<(&'static str, UniformKind, usize)> {
    v.iter().map(|u| (u.name, u.kind, u.array_count)).collect()
}

#[test]
fn fractal_uniforms() {
    assert_eq!(
        summary(&Mandelbrot { max_iter: 3 }.uniform_descs()),
        vec![("max_iter", UniformKind::Int1, 1)]
    );
    assert_eq!(
        summary(&Julia { max_iter: 3, c: 0i64 }.uniform_descs()),
        vec![("max_iter", UniformKind::Int1, 1), ("c", UniformKind::Float2, 1)]
    );
    assert_eq!(
        summary(&MandelbrotPerturb { max_iter: 256 }.uniform_descs()),
        vec![
            ("max_iter", UniformKind::Int1, 1),
            ("reference_orbit", UniformKind::Float2, 256),
            ("reference_orbit_length", UniformKind::Int1, 1),
        ]
    );
    let f = FractalType::MandelbrotPerturb.make(0i64);
    assert_eq!(summary(&f.uniform_descs())[1], ("reference_orbit", UniformKind::Float2, 256));
}

#[test]
fn view_uniforms() {
    let names: Vec<&str> = view_uniform_descs().iter().map(|u| u.name).collect();
    assert_eq!(
        names,
        vec![
            "base_re",
            "scale_re",
            "base_im",
            "scale_im",
            "pixel_dimensions",
            "display_dimensions",
            "viewport_dimensions",
        ]
    );
    assert!(view_uniform_descs().iter().all(|u| u.array_count == 1));
}
