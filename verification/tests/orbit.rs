use fractal_view::fractal::julia::Julia;
use fractal_view::fractal::mandelbrot::Mandelbrot;
use fractal_view::fractal::mandelbrot_perturb::MandelbrotPerturb;
use fractal_view::fractal::orbit::{orbit_after_step, orbit_from_start};

fn square_add(z: &i64, c: &i64) -> i64 {
    z * z + c
}

fn escaped(z: &i64) -> bool {
    z.abs() > 2
}

#[test]
fn mandelbrot_orbit_skips_start_and_keeps_escaping_point() {
    // c = 1: 1 -> 2 -> 5 (escapes)
    let m = Mandelbrot { max_iter: 10 };
    assert_eq!(m.orbit(&1i64, &square_add, &escaped), vec![2, 5]);
}

#[test]
fn mandelbrot_orbit_stops_at_budget() {
    // c = -1: -1 -> 0 -> -1 -> 0 ... never escapes
    let m = Mandelbrot { max_iter: 5 };
    assert_eq!(m.orbit(&-1i64, &square_add, &escaped), vec![0, -1, 0, -1, 0]);
    let none = Mandelbrot { max_iter: 0 };
    assert_eq!(none.orbit(&-1i64, &square_add, &escaped), Vec::<i64>::new());
}

#[test]
fn julia_orbit_starts_at_point_and_drops_escaping_point() {
    // c = 1, z0 = 0: 0 -> 1 -> 2 -> 5 (escapes, not recorded)
    let j = Julia { max_iter: 10, c: 1i64 };
    assert_eq!(j.orbit(&0i64, &square_add, &escaped), vec![0, 1, 2]);
}

#[test]
fn julia_orbit_stops_at_budget() {
    let j = Julia { max_iter: 4, c: -1i64 };
    assert_eq!(j.orbit(&0i64, &square_add, &escaped), vec![0, -1, 0, -1]);
}

#[test]
fn perturb_orbit_starts_at_point() {
    // c = z0 = 1: 1 -> 2 -> 5 (escapes)
    let p = MandelbrotPerturb { max_iter: 10 };
    assert_eq!(p.orbit(&1i64, &square_add, &escaped), vec![1, 2]);
    let one = MandelbrotPerturb { max_iter: 1 };
    assert_eq!(one.orbit(&1i64, &square_add, &escaped), vec![1]);
}

#[test]
fn orbit_of_escaping_start() {
    // the start point itself is never tested in orbit_from_start
    assert_eq!(orbit_from_start(&7i64, &0i64, 3, &square_add, &escaped), vec![7]);
    assert_eq!(orbit_after_step(&7i64, &0i64, 3, &square_add, &escaped), vec![49]);
}

#[test]
fn julia_at_point_equals_reference_orbit() {
    for p in [-2i64, -1, 0, 1, 2, 3] {
        for n in [0u32, 1, 2, 5, 9] {
            let j = Julia { max_iter: n, c: p };
            let r = MandelbrotPerturb { max_iter: n };
            assert_eq!(j.orbit(&p, &square_add, &escaped), r.orbit(&p, &square_add, &escaped));
        }
    }
}

#[test]
fn reference_orbit_is_point_then_mandelbrot_orbit_shifted() {
    for p in [-2i64, -1, 0, 1, 2, 3] {
        for n in [1u32, 2, 5, 9] {
            let m = Mandelbrot { max_iter: n }.orbit(&p, &square_add, &escaped);
            let r = MandelbrotPerturb { max_iter: n }.orbit(&p, &square_add, &escaped);
            assert_eq!(r.len(), m.len());
            let mut expected = vec![p];
            expected.extend_from_slice(&m[..m.len() - 1]);
            assert_eq!(r, expected);
        }
    }
}
