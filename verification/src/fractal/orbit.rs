//! Escape-time orbits: the iterates `z, f(z, c), f(f(z, c), c), ...` of a map
//! `f` with a fixed parameter `c`, until an iterate escapes or the iteration
//! budget runs out.
//!
//! The map and the escape test are handed in by the caller, so the same code
//! serves every fractal whatever number type it iterates on.
use vstd::prelude::*;

verus! {

/// `zs` is a chain of iterates of `step` with parameter `c` that begins with
/// the image of `start`: `zs[0]` is a result of `step(start, c)` and `zs[i]`
/// one of `step(zs[i - 1], c)`.
pub open spec fn chain_after<Z, S: Fn(&Z, &Z) -> Z>(step: S, start: Z, c: Z, zs: Seq<Z>) -> bool {
    &&& zs.len() > 0 ==> step.ensures((&start, &c), zs[0])
    &&& forall|i: int| 1 <= i < zs.len() ==> #[trigger] step.ensures((&zs[i - 1], &c), zs[i])
}

/// `zs` is a chain of iterates of `step` with parameter `c` that begins with a
/// clone of `start` itself.
pub open spec fn chain_from<Z: Clone, S: Fn(&Z, &Z) -> Z>(step: S, start: Z, c: Z, zs: Seq<Z>) -> bool {
    &&& zs.len() > 0 ==> cloned::<Z>(start, zs[0])
    &&& forall|i: int| 1 <= i < zs.len() ==> #[trigger] step.ensures((&zs[i - 1], &c), zs[i])
}

/// The escape test reported `false` for `zs[i]` for every `i` in `lo..hi`.
pub open spec fn none_escaped<Z, E: Fn(&Z) -> bool>(escaped: E, zs: Seq<Z>, lo: int, hi: int) -> bool {
    forall|i: int| lo <= i < hi ==> #[trigger] escaped.ensures((&zs[i],), false)
}

/// `zs` is what `orbit_after_step` returns for these arguments.
pub open spec fn is_orbit_after_step<Z, S: Fn(&Z, &Z) -> Z, E: Fn(&Z) -> bool>(
    step: S,
    escaped: E,
    start: Z,
    c: Z,
    max_iter: u32,
    zs: Seq<Z>,
) -> bool {
    &&& zs.len() <= max_iter
    &&& max_iter > 0 ==> zs.len() > 0
    &&& chain_after(step, start, c, zs)
    &&& none_escaped(escaped, zs, 0, zs.len() - 1)
    &&& zs.len() < max_iter ==> escaped.ensures((&zs[zs.len() - 1],), true)
}

/// `zs` is what `orbit_from_start` returns for these arguments.
pub open spec fn is_orbit_from_start<Z: Clone, S: Fn(&Z, &Z) -> Z, E: Fn(&Z) -> bool>(
    step: S,
    escaped: E,
    start: Z,
    c: Z,
    max_iter: u32,
    zs: Seq<Z>,
) -> bool {
    &&& zs.len() <= max_iter
    &&& max_iter > 0 ==> zs.len() > 0
    &&& chain_from(step, start, c, zs)
    &&& none_escaped(escaped, zs, 1, zs.len() as int)
    &&& zs.len() < max_iter ==> exists|z: Z|
        step.ensures((&zs[zs.len() - 1], &c), z) && #[trigger] escaped.ensures((&z,), true)
}

/// The map and the escape test are functions: equal arguments give equal
/// results.
pub open spec fn deterministic<Z, S: Fn(&Z, &Z) -> Z, E: Fn(&Z) -> bool>(step: S, escaped: E) -> bool {
    &&& forall|z: Z, c: Z, r1: Z, r2: Z|
        #![trigger step.ensures((&z, &c), r1), step.ensures((&z, &c), r2)]
        step.ensures((&z, &c), r1) && step.ensures((&z, &c), r2) ==> r1 == r2
    &&& forall|z: Z, b1: bool, b2: bool|
        #![trigger escaped.ensures((&z,), b1), escaped.ensures((&z,), b2)]
        escaped.ensures((&z,), b1) && escaped.ensures((&z,), b2) ==> b1 == b2
}

/// Cloning gives back the same value.
pub open spec fn faithful_clone<Z: Clone>() -> bool {
    forall|a: Z, b: Z| #[trigger] cloned::<Z>(a, b) ==> a == b
}

/// Every point may be stepped and tested.
pub open spec fn total<Z, S: Fn(&Z, &Z) -> Z, E: Fn(&Z) -> bool>(step: S, escaped: E) -> bool {
    &&& forall|z: &Z, c: &Z| #[trigger] step.requires((z, c))
    &&& forall|z: &Z| #[trigger] escaped.requires((z,))
}

/// Iterates `z -> step(z, c)` from `start` at most `max_iter` times and records
/// each new iterate, the first one that escapes included; `start` itself is not
/// recorded. The orbit ends at the first escaping iterate, or after `max_iter`
/// iterates.
pub fn orbit_after_step<Z, S: Fn(&Z, &Z) -> Z, E: Fn(&Z) -> bool>(
    start: &Z,
    c: &Z,
    max_iter: u32,
    step: &S,
    escaped: &E,
) -> (zs: Vec<Z>)
    requires
        total(*step, *escaped),
    ensures
        is_orbit_after_step(*step, *escaped, *start, *c, max_iter, zs@),
        zs.len() <= max_iter,
        max_iter > 0 ==> zs.len() > 0,
        zs.len() == max_iter || escaped.ensures((&zs@[zs.len() - 1],), true),
{
    let mut zs: Vec<Z> = Vec::new();
    if max_iter == 0 {
        return zs;
    }
    let first = step(start, c);
    let out = escaped(&first);
    zs.push(first);
    if out {
        return zs;
    }
    let mut n: u32 = 1;
    while n < max_iter
        invariant
            total(*step, *escaped),
            1 <= n <= max_iter,
            zs.len() == n,
            chain_after(*step, *start, *c, zs@),
            none_escaped(*escaped, zs@, 0, zs.len() as int),
        decreases max_iter - n,
    {
        let next = step(&zs[zs.len() - 1], c);
        let out = escaped(&next);
        zs.push(next);
        n = n + 1;
        assert(step.ensures((&zs@[n - 2], c), zs@[n - 1]));
        if out {
            return zs;
        }
    }
    zs
}

/// Iterates `z -> step(z, c)` from `start` and records each point before it is
/// stepped, (a clone of) `start` first, at most `max_iter` points. The orbit
/// ends before the first iterate that escapes (which is not recorded), or
/// after `max_iter` points.
pub fn orbit_from_start<Z: Clone, S: Fn(&Z, &Z) -> Z, E: Fn(&Z) -> bool>(
    start: &Z,
    c: &Z,
    max_iter: u32,
    step: &S,
    escaped: &E,
) -> (zs: Vec<Z>)
    requires
        total(*step, *escaped),
    ensures
        is_orbit_from_start(*step, *escaped, *start, *c, max_iter, zs@),
        zs.len() <= max_iter,
        max_iter > 0 ==> zs.len() > 0,
        zs.len() == max_iter || exists|z: Z|
            step.ensures((&zs@[zs.len() - 1], c), z) && #[trigger] escaped.ensures((&z,), true),
{
    let mut zs: Vec<Z> = Vec::new();
    if max_iter == 0 {
        return zs;
    }
    zs.push(start.clone());
    let mut n: u32 = 1;
    while n < max_iter
        invariant
            total(*step, *escaped),
            1 <= n <= max_iter,
            zs.len() == n,
            chain_from(*step, *start, *c, zs@),
            none_escaped(*escaped, zs@, 1, zs.len() as int),
        decreases max_iter - n,
    {
        let next = step(&zs[zs.len() - 1], c);
        let out = escaped(&next);
        if out {
            assert(step.ensures((&zs@[zs.len() - 1], c), next) && escaped.ensures((&next,), true));
            return zs;
        }
        zs.push(next);
        n = n + 1;
        assert(step.ensures((&zs@[n - 2], c), zs@[n - 1]));
    }
    zs
}

/// An orbit recorded after each step uses up the whole budget unless it ends
/// at an escaping iterate: it has at most `max_iter` entries, at least one when
/// the budget is positive, exactly `max_iter` unless its last entry escaped,
/// and no entry before the last escaped.
pub proof fn lemma_after_step_budget<Z, S: Fn(&Z, &Z) -> Z, E: Fn(&Z) -> bool>(
    step: S,
    escaped: E,
    start: Z,
    c: Z,
    max_iter: u32,
    zs: Seq<Z>,
)
    requires
        is_orbit_after_step(step, escaped, start, c, max_iter, zs),
    ensures
        zs.len() <= max_iter,
        max_iter > 0 ==> zs.len() > 0,
        zs.len() == max_iter || escaped.ensures((&zs[zs.len() - 1],), true),
        forall|k: int| 0 <= k < zs.len() - 1 ==> #[trigger] escaped.ensures((&zs[k],), false),
{
}

/// For a deterministic escape test, an orbit recorded after each step none of
/// whose entries escapes has exactly `max_iter` entries.
pub proof fn lemma_after_step_full_when_bounded<Z, S: Fn(&Z, &Z) -> Z, E: Fn(&Z) -> bool>(
    step: S,
    escaped: E,
    start: Z,
    c: Z,
    max_iter: u32,
    zs: Seq<Z>,
)
    requires
        deterministic(step, escaped),
        is_orbit_after_step(step, escaped, start, c, max_iter, zs),
        forall|k: int| 0 <= k < zs.len() ==> #[trigger] escaped.ensures((&zs[k],), false),
    ensures
        zs.len() == max_iter,
{
    if zs.len() < max_iter {
        assert(escaped.ensures((&zs[zs.len() - 1],), true));
        assert(escaped.ensures((&zs[zs.len() - 1],), false));
    }
}

/// An orbit recorded from its start uses up the whole budget unless the
/// iterate after its last entry escapes: it has at most `max_iter` entries, at
/// least one when the budget is positive, exactly `max_iter` unless the next
/// iterate escaped, and none of its entries after the start escaped.
pub proof fn lemma_from_start_budget<Z: Clone, S: Fn(&Z, &Z) -> Z, E: Fn(&Z) -> bool>(
    step: S,
    escaped: E,
    start: Z,
    c: Z,
    max_iter: u32,
    zs: Seq<Z>,
)
    requires
        is_orbit_from_start(step, escaped, start, c, max_iter, zs),
    ensures
        zs.len() <= max_iter,
        max_iter > 0 ==> zs.len() > 0,
        zs.len() == max_iter || exists|z: Z|
            step.ensures((&zs[zs.len() - 1], &c), z) && #[trigger] escaped.ensures((&z,), true),
        forall|k: int| 1 <= k < zs.len() ==> #[trigger] escaped.ensures((&zs[k],), false),
{
}

/// For a deterministic map and escape test, an orbit recorded from its start
/// whose next iterate does not escape has exactly `max_iter` entries.
pub proof fn lemma_from_start_full_when_bounded<Z: Clone, S: Fn(&Z, &Z) -> Z, E: Fn(&Z) -> bool>(
    step: S,
    escaped: E,
    start: Z,
    c: Z,
    max_iter: u32,
    zs: Seq<Z>,
    next: Z,
)
    requires
        deterministic(step, escaped),
        is_orbit_from_start(step, escaped, start, c, max_iter, zs),
        zs.len() > 0,
        step.ensures((&zs[zs.len() - 1], &c), next),
        escaped.ensures((&next,), false),
    ensures
        zs.len() == max_iter,
{
    if zs.len() < max_iter {
        let z = choose|z: Z|
            step.ensures((&zs[zs.len() - 1], &c), z) && #[trigger] escaped.ensures((&z,), true);
        assert(z == next);
    }
}

/// For a deterministic map and escape test with a faithful clone, the orbit
/// from a start point is unique: any two results agree.
pub proof fn lemma_orbit_from_start_unique<Z: Clone, S: Fn(&Z, &Z) -> Z, E: Fn(&Z) -> bool>(
    step: S,
    escaped: E,
    start: Z,
    c: Z,
    max_iter: u32,
    zs1: Seq<Z>,
    zs2: Seq<Z>,
)
    requires
        deterministic(step, escaped),
        faithful_clone::<Z>(),
        is_orbit_from_start(step, escaped, start, c, max_iter, zs1),
        is_orbit_from_start(step, escaped, start, c, max_iter, zs2),
    ensures
        zs1 == zs2,
{
    assert forall|i: int| 0 <= i < zs1.len() && i < zs2.len() implies zs1[i] == zs2[i] by {
        lemma_from_start_agree(step, escaped, start, c, max_iter, zs1, zs2, i);
    }
    lemma_from_start_not_shorter(step, escaped, start, c, max_iter, zs1, zs2);
    lemma_from_start_not_shorter(step, escaped, start, c, max_iter, zs2, zs1);
    assert(zs1 =~= zs2);
}

proof fn lemma_from_start_agree<Z: Clone, S: Fn(&Z, &Z) -> Z, E: Fn(&Z) -> bool>(
    step: S,
    escaped: E,
    start: Z,
    c: Z,
    max_iter: u32,
    zs1: Seq<Z>,
    zs2: Seq<Z>,
    i: int,
)
    requires
        deterministic(step, escaped),
        faithful_clone::<Z>(),
        is_orbit_from_start(step, escaped, start, c, max_iter, zs1),
        is_orbit_from_start(step, escaped, start, c, max_iter, zs2),
        0 <= i < zs1.len(),
        i < zs2.len(),
    ensures
        zs1[i] == zs2[i],
    decreases i,
{
    if i == 0 {
        assert(cloned::<Z>(start, zs1[0]));
        assert(cloned::<Z>(start, zs2[0]));
    } else {
        lemma_from_start_agree(step, escaped, start, c, max_iter, zs1, zs2, i - 1);
        assert(step.ensures((&zs1[i - 1], &c), zs1[i]));
        assert(step.ensures((&zs2[i - 1], &c), zs2[i]));
    }
}

/// Of two agreeing orbits from the same start, the first is not the shorter.
proof fn lemma_from_start_not_shorter<Z: Clone, S: Fn(&Z, &Z) -> Z, E: Fn(&Z) -> bool>(
    step: S,
    escaped: E,
    start: Z,
    c: Z,
    max_iter: u32,
    short: Seq<Z>,
    long: Seq<Z>,
)
    requires
        deterministic(step, escaped),
        is_orbit_from_start(step, escaped, start, c, max_iter, short),
        is_orbit_from_start(step, escaped, start, c, max_iter, long),
        forall|i: int| 0 <= i < short.len() && i < long.len() ==> short[i] == long[i],
    ensures
        short.len() >= long.len(),
{
    let k = short.len() as int;
    if k < long.len() {
        assert(k > 0);
        let z = choose|z: Z| step.ensures((&short[k - 1], &c), z) && #[trigger] escaped.ensures((&z,), true);
        assert(step.ensures((&long[k - 1], &c), long[k]));
        assert(long[k] == z);
        assert(escaped.ensures((&long[k],), false));
    }
}

/// The reference orbit of the perturbation renderer is the point itself
/// followed by the Mandelbrot orbit of the point without its last entry: both
/// have the same length, and entry `i + 1` of the one is entry `i` of the
/// other.
pub proof fn lemma_reference_orbit_shifts_mandelbrot<Z: Clone, S: Fn(&Z, &Z) -> Z, E: Fn(&Z) -> bool>(
    step: S,
    escaped: E,
    point: Z,
    max_iter: u32,
    reference: Seq<Z>,
    mandelbrot: Seq<Z>,
)
    requires
        deterministic(step, escaped),
        faithful_clone::<Z>(),
        is_orbit_from_start(step, escaped, point, point, max_iter, reference),
        is_orbit_after_step(step, escaped, point, point, max_iter, mandelbrot),
    ensures
        reference.len() == mandelbrot.len(),
        reference.len() > 0 ==> reference[0] == point,
        forall|i: int| 1 <= i < reference.len() ==> reference[i] == mandelbrot[i - 1],
{
    assert forall|i: int| 1 <= i < reference.len() && i - 1 < mandelbrot.len() implies reference[i]
        == mandelbrot[i - 1] by {
        lemma_shifted_agree(step, escaped, point, max_iter, reference, mandelbrot, i);
    }
    if reference.len() > 0 {
        assert(cloned::<Z>(point, reference[0]));
    }
    let k = reference.len() as int;
    let l = mandelbrot.len() as int;
    if k < l {
        // the reference orbit stopped early: its next iterate escaped, but that
        // iterate is an inner entry of the Mandelbrot orbit
        assert(k > 0);
        let z = choose|z: Z|
            step.ensures((&reference[k - 1], &point), z) && #[trigger] escaped.ensures((&z,), true);
        if k == 1 {
            assert(cloned::<Z>(point, reference[0]));
            assert(step.ensures((&point, &point), mandelbrot[0]));
        } else {
            assert(step.ensures((&mandelbrot[k - 2], &point), mandelbrot[k - 1]));
        }
        assert(mandelbrot[k - 1] == z);
        assert(escaped.ensures((&mandelbrot[k - 1],), false));
        assert(false);
    } else if l < k {
        // the Mandelbrot orbit stopped early at an escaping entry, which the
        // reference orbit holds and tested as not escaping
        assert(l > 0);
        assert(escaped.ensures((&mandelbrot[l - 1],), true));
        assert(reference[l] == mandelbrot[l - 1]);
        assert(escaped.ensures((&reference[l],), false));
        assert(false);
    }
}

proof fn lemma_shifted_agree<Z: Clone, S: Fn(&Z, &Z) -> Z, E: Fn(&Z) -> bool>(
    step: S,
    escaped: E,
    point: Z,
    max_iter: u32,
    reference: Seq<Z>,
    mandelbrot: Seq<Z>,
    i: int,
)
    requires
        deterministic(step, escaped),
        faithful_clone::<Z>(),
        is_orbit_from_start(step, escaped, point, point, max_iter, reference),
        is_orbit_after_step(step, escaped, point, point, max_iter, mandelbrot),
        1 <= i < reference.len(),
        i - 1 < mandelbrot.len(),
    ensures
        reference[i] == mandelbrot[i - 1],
    decreases i,
{
    assert(step.ensures((&reference[i - 1], &point), reference[i]));
    if i == 1 {
        assert(cloned::<Z>(point, reference[0]));
        assert(step.ensures((&point, &point), mandelbrot[0]));
    } else {
        lemma_shifted_agree(step, escaped, point, max_iter, reference, mandelbrot, i - 1);
        assert(step.ensures((&mandelbrot[i - 2], &point), mandelbrot[i - 1]));
    }
}

} // verus!
