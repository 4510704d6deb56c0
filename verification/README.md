# fractal_view

The verified core of an interactive Mandelbrot / Julia set viewer.

- `src/` is the library, checked by Verus:
  - `fractal` — `FractalType` (cycling order, names, parsing), the fractal
    structs and `AnyFractal`, escape-time orbits (`fractal::orbit`) that take
    the map `z -> f(z, c)` and the escape test from the caller, and the
    reference-orbit and shader-template handling of the perturbation renderer,
    with lemmas relating the orbits of the three fractals;
  - `renderer` — when the cached renderer must render again and when it must
    create a new render target;
  - `controls` — the viewer's settings and what each command does to them;
  - `uniforms` — names, types and array lengths of the shader uniforms;
  - `text` — decimal rendering, literal search-and-replace, string equality.
- `app/` is the program around it: the window and GPU work (`macroquad`),
  arbitrary-precision arithmetic (`rug`), line clipping (`line-clipping`) and
  every floating-point computation (views, colouring, panning and zooming).
  It reads its GLSL shaders from a `shaders/` directory at start-up.
