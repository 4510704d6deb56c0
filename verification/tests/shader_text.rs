use fractal_view::fractal::mandelbrot_perturb::{MandelbrotPerturb, SIZE_PLACEHOLDER};
use fractal_view::text::{chars_of, decimal_string, replace_str, str_equals};

#[test]
fn decimal_string_matches_to_string() {
    for n in [0u32, 1, 9, 10, 11, 99, 100, 256, 1000, 65535, 4294967295] {
        assert_eq!(decimal_string(n), n.to_string());
    }
}

#[test]
fn replace_replaces_every_occurrence() {
    assert_eq!(replace_str("a$size$b$size$", "$size$", "42"), "a42b42");
    assert_eq!(replace_str("no marker", "$size$", "42"), "no marker");
    assert_eq!(replace_str("aaa", "aa", "b"), "ba");
    assert_eq!(replace_str("", "x", "y"), "");
    assert_eq!(replace_str("xyx", "x", ""), "y");
}

#[test]
fn replace_agrees_with_std() {
    let cases = ["$size$$size$", "$$size$$", "uniform vec2 orbit[$size$];", "size$size"];
    for s in cases {
        assert_eq!(replace_str(s, "$size$", "256"), s.replace("$size$", "256"));
    }
}

#[test]
fn fragment_shader_inserts_the_budget() {
    let p = MandelbrotPerturb { max_iter: 256 };
    let template = "uniform vec2 reference_orbit[$size$];\nint n = $size$;";
    assert_eq!(p.fragment_shader(template), "uniform vec2 reference_orbit[256];\nint n = 256;");
    assert_eq!(SIZE_PLACEHOLDER, "$size$");
    let q = MandelbrotPerturb { max_iter: 7 };
    assert_eq!(q.fragment_shader("x"), "x");
}

#[test]
fn string_helpers() {
    assert!(str_equals("héllo", "héllo"));
    assert!(!str_equals("hello", "hell"));
    assert!(!str_equals("abc", "abd"));
    assert_eq!(chars_of("héllo"), vec!['h', 'é', 'l', 'l', 'o']);
}

#[test]
fn reference_orbit_is_padded_to_budget() {
    let p = MandelbrotPerturb { max_iter: 5 };
    let (padded, len) = p.reference_orbit(vec![(1.0f32, 2.0f32), (3.0, 4.0)], (0.0, 0.0));
    assert_eq!(len, 2);
    assert_eq!(padded, vec![(1.0, 2.0), (3.0, 4.0), (0.0, 0.0), (0.0, 0.0), (0.0, 0.0)]);

    let short = MandelbrotPerturb { max_iter: 1 };
    let (cut, len) = short.reference_orbit(vec![9u8, 8, 7], 0);
    assert_eq!(len, 3);
    assert_eq!(cut, vec![9]);
}

#[test]
fn shader_keeps_no_marker() {
    let p = MandelbrotPerturb { max_iter: 12 };
    for template in ["$$size$$", "$size$size$", "a$si$size$ze$", "$size"] {
        let shader = p.fragment_shader(template);
        assert!(!shader.contains("$size$"), "{}", shader);
    }
    assert_eq!(p.fragment_shader("$$size$$"), "$12$");
    assert_eq!(p.fragment_shader("$size"), "$size");
}
