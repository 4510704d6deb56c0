use fractal_view::fractal::julia::Julia;
use fractal_view::fractal::mandelbrot::Mandelbrot;
use fractal_view::fractal::mandelbrot_perturb::MandelbrotPerturb;
use fractal_view::fractal::{AnyFractal, FractalType, ParseFractalTypeError, DEFAULT_MAX_ITER};

#[test]
fn next_cycles_in_declared_order() {
    assert_eq!(FractalType::Mandelbrot.next(), FractalType::Julia);
    assert_eq!(FractalType::Julia.next(), FractalType::MandelbrotPerturb);
    assert_eq!(FractalType::MandelbrotPerturb.next(), FractalType::Mandelbrot);
}

#[test]
fn next_three_times_is_identity() {
    for t in FractalType::all() {
        assert_eq!(t.next().next().next(), t);
        assert_ne!(t.next(), t);
    }
}

#[test]
fn all_lists_types_in_order() {
    assert_eq!(
        FractalType::all(),
        vec![FractalType::Mandelbrot, FractalType::Julia, FractalType::MandelbrotPerturb]
    );
}

#[test]
fn names_match_display_strings() {
    assert_eq!(FractalType::Mandelbrot.name(), "Mandelbrot Set");
    assert_eq!(FractalType::Julia.name(), "Julia Set");
    assert_eq!(FractalType::MandelbrotPerturb.name(), "Mandelbrot Set Perturbation");
}

#[test]
fn parse_round_trips_names() {
    for t in FractalType::all() {
        assert_eq!(FractalType::parse(t.name()), Ok(t));
    }
}

#[test]
fn parse_rejects_other_strings() {
    assert_eq!(FractalType::parse("Mandelbrot"), Err(ParseFractalTypeError::VariantNotFound));
    assert_eq!(FractalType::parse("julia set"), Err(ParseFractalTypeError::VariantNotFound));
    assert_eq!(FractalType::parse(""), Err(ParseFractalTypeError::VariantNotFound));
    assert_eq!(
        FractalType::parse("Mandelbrot Set "),
        Err(ParseFractalTypeError::VariantNotFound)
    );
}

#[test]
fn make_builds_each_type_with_default_budget() {
    for t in FractalType::all() {
        let f = t.make(7i64);
        assert_eq!(f.fractal_type(), t);
        assert_eq!(f.max_iter(), DEFAULT_MAX_ITER);
        assert_eq!(f.max_iter(), 256);
    }
    match FractalType::Julia.make(42i64) {
        AnyFractal::Julia(j) => assert_eq!(j.c, 42),
        _ => panic!("expected a Julia set"),
    }
}

#[test]
fn set_max_iter_reads_back() {
    let mut f = FractalType::MandelbrotPerturb.make(0i64);
    f.set_max_iter(1000);
    assert_eq!(f.max_iter(), 1000);
    assert_eq!(f.fractal_type(), FractalType::MandelbrotPerturb);

    let mut m = Mandelbrot { max_iter: 5 };
    m.set_max_iter(9);
    assert_eq!(m.max_iter(), 9);
    assert_eq!(m.fractal_type(), FractalType::Mandelbrot);

    let mut p = MandelbrotPerturb { max_iter: 5 };
    p.set_max_iter(11);
    assert_eq!(p.max_iter(), 11);
    assert_eq!(p.fractal_type(), FractalType::MandelbrotPerturb);

    let mut j = Julia { max_iter: 3, c: 1i64 };
    j.set_max_iter(4);
    assert_eq!(j.max_iter(), 4);
    assert_eq!(j.c, 1);
    assert_eq!(j.fractal_type(), FractalType::Julia);
}

#[test]
fn input_parameter_only_changes_julia() {
    let mut j = FractalType::Julia.make(1i64);
    j.input_parameter(5);
    match j {
        AnyFractal::Julia(ref inner) => assert_eq!(inner.c, 5),
        _ => panic!("expected a Julia set"),
    }
    let mut m = FractalType::Mandelbrot.make(1i64);
    m.input_parameter(5);
    assert_eq!(m.fractal_type(), FractalType::Mandelbrot);
    assert_eq!(m.max_iter(), 256);

    let mut direct = Julia { max_iter: 10, c: 0i64 };
    direct.input_parameter(-3);
    assert_eq!(direct.c, -3);
    assert_eq!(direct.max_iter, 10);
}
