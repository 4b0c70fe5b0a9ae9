//! The steps on the twist follow the chord-and-tangent rule: where a point
//! in Jacobian coordinates stands for an affine point, its double and its
//! sum with another point stand for the points that the rule gives, and the
//! coefficients of the line are those of the tangent or the chord with that
//! slope, up to the common factor `c0`.

use crate::model::curve::{AffineValue, LineValue, ProjectiveValue};
use crate::model::jacobian::{
    added_closed, chord_closed, doubled_closed, lemma_added_closed, lemma_chord_closed,
    lemma_doubled_closed, lemma_scale_eqv, lemma_scaled_product, lemma_tangent_closed,
    slope_closed, tangent_closed,
};
use crate::model::quadratic::{
    lemma_canonical_equal2, lemma_eqv_minus2, lemma_eqv_times2, lemma_mul_laws2, lemma_reduce2,
    lemma_times_distributes2, Fq2Value,
};
use vstd::prelude::*;

verus! {

/// The point `r` in Jacobian coordinates stands for the affine point `a`:
/// `X = x Z^2` and `Y = y Z^3`.
pub open spec fn represents(r: ProjectiveValue, a: AffineValue) -> bool {
    let zz = r.z.square();
    r.x == a.x.mul(zz) && r.y == a.y.mul(zz.mul(r.z))
}

/// `l` is the slope of the tangent at `a`: `2 y l = 3 x^2`.
pub open spec fn tangent_slope(a: AffineValue, l: Fq2Value) -> bool {
    a.y.mul(l).scale(2) == a.x.square().scale(3)
}

/// `l` is the slope of the chord through `a` and `b`: `l (x_b - x_a) = y_b - y_a`.
pub open spec fn chord_slope(a: AffineValue, b: AffineValue, l: Fq2Value) -> bool {
    l.mul(b.x.sub(a.x)) == b.y.sub(a.y)
}

/// The opposite of the third point of the line of slope `l` through `a` and
/// `b`, which is their sum: `x = l^2 - x_a - x_b` and `y = l (x_a - x) - y_a`.
pub open spec fn sum_by_slope(a: AffineValue, b: AffineValue, l: Fq2Value) -> AffineValue {
    let x = l.square().sub(a.x).sub(b.x);
    AffineValue { x, y: l.mul(a.x.sub(x)).sub(a.y) }
}

/// The line of slope `l` through `a`, with the factor `c0`:
/// `c0 (y - l x + (l x_a - y_a))`.
pub open spec fn line_by_slope(a: AffineValue, l: Fq2Value, c0: Fq2Value) -> LineValue {
    LineValue { c0, c3: l.mul(c0).neg(), c4: c0.mul(l.mul(a.x).sub(a.y)) }
}

/// Products distribute over differences in Fq2.
proof fn lemma_difference(a: Fq2Value, b: Fq2Value, c: Fq2Value)
    ensures
        a.sub(b).mul(c) == a.mul(c).sub(b.mul(c)),
        c.mul(a.sub(b)) == c.mul(a).sub(c.mul(b)),
{
    lemma_reduce2(a.minus(b));
    lemma_eqv_times2(a.sub(b), c, a.minus(b), c);
    lemma_eqv_times2(c, a.sub(b), c, a.minus(b));
    lemma_times_distributes2(a, b, c);
    lemma_reduce2(a.times(c));
    lemma_reduce2(b.times(c));
    lemma_reduce2(c.times(a));
    lemma_reduce2(c.times(b));
    lemma_eqv_minus2(a.mul(c), b.mul(c), a.times(c), b.times(c));
    lemma_eqv_minus2(c.mul(a), c.mul(b), c.times(a), c.times(b));
    lemma_reduce2(a.sub(b).times(c));
    lemma_reduce2(c.times(a.sub(b)));
    lemma_reduce2(a.mul(c).minus(b.mul(c)));
    lemma_reduce2(c.mul(a).minus(c.mul(b)));
    lemma_canonical_equal2(a.sub(b).mul(c), a.mul(c).sub(b.mul(c)));
    lemma_canonical_equal2(c.mul(a.sub(b)), c.mul(a).sub(c.mul(b)));
}

/// Integer multiples move through products in Fq2.
proof fn lemma_multiple(a: Fq2Value, m: int, b: Fq2Value, n: int)
    ensures
        a.scale(m).mul(b) == a.mul(b).scale(m),
        a.mul(b.scale(n)) == a.mul(b).scale(n),
        a.scale(m).mul(b.scale(n)) == a.mul(b).scale(m * n),
        a.scale(m).scale(n) == a.scale(m * n),
        a.scale(m).sub(b.scale(m)) == a.sub(b).scale(m),
{
    lemma_scaled_product(a, m, b, n);
    lemma_scale_eqv(a, a, m);
    lemma_scale_eqv(b, b, n);
    lemma_scale_eqv(b, b, m);
    lemma_reduce2(a.times(b));
    lemma_eqv_times2(a.scale(m), b, a.scaled(m), b);
    lemma_eqv_times2(a, b.scale(n), a, b.scaled(n));
    lemma_eqv_times2(a.scale(m), b.scale(n), a.scaled(m), b.scaled(n));
    lemma_scale_eqv(a.mul(b), a.times(b), m);
    lemma_scale_eqv(a.mul(b), a.times(b), n);
    lemma_scale_eqv(a.mul(b), a.times(b), m * n);
    lemma_reduce2(a.scale(m).times(b));
    lemma_reduce2(a.times(b.scale(n)));
    lemma_reduce2(a.scale(m).times(b.scale(n)));
    lemma_reduce2(a.mul(b).scaled(m));
    lemma_reduce2(a.mul(b).scaled(n));
    lemma_reduce2(a.mul(b).scaled(m * n));
    lemma_canonical_equal2(a.scale(m).mul(b), a.mul(b).scale(m));
    lemma_canonical_equal2(a.mul(b.scale(n)), a.mul(b).scale(n));
    lemma_canonical_equal2(a.scale(m).mul(b.scale(n)), a.mul(b).scale(m * n));
    // a multiple of a multiple
    lemma_scale_eqv(a.scale(m), a.scaled(m), n);
    vstd::arithmetic::mul::lemma_mul_is_associative(a.c0, m, n);
    vstd::arithmetic::mul::lemma_mul_is_associative(a.c1, m, n);
    assert(a.scaled(m).scaled(n) == a.scaled(m * n));
    lemma_reduce2(a.scale(m).scaled(n));
    lemma_reduce2(a.scaled(m * n));
    lemma_canonical_equal2(a.scale(m).scale(n), a.scale(m * n));
    // the difference of two multiples
    lemma_eqv_minus2(a.scale(m), b.scale(m), a.scaled(m), b.scaled(m));
    lemma_reduce2(a.minus(b));
    lemma_scale_eqv(a.sub(b), a.minus(b), m);
    vstd::arithmetic::mul::lemma_mul_is_distributive_sub_other_way(m, a.c0, b.c0);
    vstd::arithmetic::mul::lemma_mul_is_distributive_sub_other_way(m, a.c1, b.c1);
    assert(a.scaled(m).minus(b.scaled(m)) == a.minus(b).scaled(m));
    lemma_reduce2(a.scale(m).minus(b.scale(m)));
    lemma_reduce2(a.sub(b).scaled(m));
    lemma_canonical_equal2(a.scale(m).sub(b.scale(m)), a.sub(b).scale(m));
}

/// The factors of a product of two products change places.
proof fn lemma_interchange(a: Fq2Value, b: Fq2Value, c: Fq2Value, d: Fq2Value)
    ensures
        a.mul(b).mul(c.mul(d)) == a.mul(c).mul(b.mul(d)),
        a.mul(b).mul(c.mul(d)) == a.mul(d).mul(b.mul(c)),
{
    lemma_mul_laws2(a, b, c.mul(d));
    lemma_mul_laws2(b, c, d);
    lemma_mul_laws2(c, b, d);
    lemma_mul_laws2(a, c, b.mul(d));
    assert(a.mul(b).mul(c.mul(d)) == a.mul(c).mul(b.mul(d)));
    lemma_mul_laws2(c, d, c);
    lemma_mul_laws2(a, b, d.mul(c));
    lemma_mul_laws2(b, d, c);
    lemma_mul_laws2(d, b, c);
    lemma_mul_laws2(a, d, b.mul(c));
}

/// Differences of multiples of four and eight.
proof fn lemma_differences(p: Fq2Value, v: Fq2Value, g: Fq2Value)
    ensures
        p.sub(v.scale(4)).sub(v.scale(4)) == p.sub(v.scale(8)),
        p.sub(v.scale(4)).sub(g.scale(4)) == p.sub(g.sub(v).scale(4)).sub(v.scale(8)),
{
    lemma_scale_eqv(v, v, 4);
    lemma_scale_eqv(v, v, 8);
    lemma_scale_eqv(g, g, 4);
    lemma_eqv_minus2(p, v.scale(4), p, v.scaled(4));
    lemma_eqv_minus2(p.sub(v.scale(4)), v.scale(4), p.minus(v.scaled(4)), v.scaled(4));
    lemma_eqv_minus2(p.sub(v.scale(4)), g.scale(4), p.minus(v.scaled(4)), g.scaled(4));
    lemma_eqv_minus2(p, v.scale(8), p, v.scaled(8));
    lemma_reduce2(g.minus(v));
    lemma_scale_eqv(g.sub(v), g.minus(v), 4);
    lemma_eqv_minus2(p, g.sub(v).scale(4), p, g.minus(v).scaled(4));
    lemma_eqv_minus2(
        p.sub(g.sub(v).scale(4)),
        v.scale(8),
        p.minus(g.minus(v).scaled(4)),
        v.scaled(8),
    );
    assert(p.minus(v.scaled(4)).minus(v.scaled(4)) == p.minus(v.scaled(8)));
    assert(p.minus(v.scaled(4)).minus(g.scaled(4)) == p.minus(g.minus(v).scaled(4)).minus(
        v.scaled(8),
    ));
    lemma_reduce2(p.sub(v.scale(4)).minus(v.scale(4)));
    lemma_reduce2(p.sub(v.scale(4)).minus(g.scale(4)));
    lemma_reduce2(p.minus(v.scale(8)));
    lemma_reduce2(p.sub(g.sub(v).scale(4)).minus(v.scale(8)));
    lemma_canonical_equal2(p.sub(v.scale(4)).sub(v.scale(4)), p.sub(v.scale(8)));
    lemma_canonical_equal2(
        p.sub(v.scale(4)).sub(g.scale(4)),
        p.sub(g.sub(v).scale(4)).sub(v.scale(8)),
    );
}

/// Where `2 y l = 3 x^2`, `X = x Z^2` and `Y = y Z^3`: `3 X^2 = l (2 Y Z)`.
proof fn lemma_tangent_key(x: Fq2Value, y: Fq2Value, z: Fq2Value, l: Fq2Value)
    requires
        y.mul(l).scale(2) == x.square().scale(3),
    ensures
        x.mul(z.square()).square().scale(3) == l.mul(y.mul(z.square().mul(z)).mul(z).scale(2)),
{
    let zz = z.square();
    let zzz = zz.mul(z);
    let bx = x.mul(zz);
    let by = y.mul(zzz);
    let z4 = zz.mul(zz);
    // 3 X^2 = 2 (y l) Z^4
    lemma_interchange(x, zz, x, zz);
    assert(bx.square() == x.mul(x).mul(z4));
    lemma_multiple(x.mul(x), 3, z4, 1);
    lemma_multiple(y.mul(l), 2, z4, 1);
    assert(bx.square().scale(3) == y.mul(l).mul(z4).scale(2));
    // l (2 Y Z) = 2 (l y) Z^4
    lemma_multiple(l, 1, by.mul(z), 2);
    lemma_mul_laws2(y, zzz, z);
    lemma_mul_laws2(zz, z, z);
    assert(by.mul(z) == y.mul(z4));
    lemma_mul_laws2(l, y, z4);
    lemma_mul_laws2(l, y, l);
}

/// The square of `2 Y Z`, and its product with `x` where `X = x Z^2`.
proof fn lemma_tangent_square(x: Fq2Value, by: Fq2Value, z: Fq2Value)
    ensures
        by.mul(z).scale(2).square() == by.square().mul(z.square()).scale(4),
        x.mul(by.mul(z).scale(2).square()) == x.mul(z.square()).mul(by.square()).scale(4),
{
    let zz = z.square();
    let yy = by.square();
    lemma_multiple(by.mul(z), 2, by.mul(z), 2);
    lemma_interchange(by, z, by, z);
    lemma_multiple(x, 1, yy.mul(zz), 4);
    lemma_mul_laws2(yy, zz, yy);
    lemma_mul_laws2(x, zz, yy);
}

/// The cube of `2 Y Z` times `y`, where `Y = y Z^3`: `8 Y^4`.
proof fn lemma_tangent_cube(y: Fq2Value, z: Fq2Value)
    ensures
        ({
            let by = y.mul(z.square().mul(z));
            let z3 = by.mul(z).scale(2);
            y.mul(z3.square().mul(z3)) == by.square().square().scale(8)
        }),
{
    let zz = z.square();
    let zzz = zz.mul(z);
    let by = y.mul(zzz);
    let yy = by.square();
    let z3 = by.mul(z).scale(2);
    lemma_tangent_square(y, by, z);
    lemma_multiple(yy.mul(zz), 4, by.mul(z), 2);
    lemma_interchange(yy, zz, by, z);
    assert(z3.square().mul(z3) == yy.mul(by).mul(zzz).scale(8));
    lemma_multiple(y, 1, yy.mul(by).mul(zzz), 8);
    lemma_mul_laws2(yy.mul(by), zzz, y);
    lemma_mul_laws2(y, zzz, yy.mul(by));
    lemma_mul_laws2(by, yy, by);
    lemma_mul_laws2(by, by, yy);
    assert(y.mul(yy.mul(by).mul(zzz)) == yy.mul(yy));
}

/// The doubling step follows the tangent rule: where `r` stands for `a` and
/// `l` is the slope of the tangent at `a`, the double of `r` stands for the
/// sum of `a` with itself, and the line is the tangent at `a`.
pub proof fn lemma_doubling_step(r: ProjectiveValue, a: AffineValue, l: Fq2Value)
    requires
        represents(r, a),
        tangent_slope(a, l),
    ensures
        represents(r.doubled(), sum_by_slope(a, a, l)),
        r.tangent() == line_by_slope(a, l, tangent_closed(r).c0),
{
    lemma_doubled_closed(r);
    lemma_tangent_closed(r);
    lemma_doubled_point(r, a, l);
    lemma_tangent_line(r, a, l);
}

/// The double in closed form stands for the sum of `a` with itself.
proof fn lemma_doubled_point(r: ProjectiveValue, a: AffineValue, l: Fq2Value)
    requires
        represents(r, a),
        tangent_slope(a, l),
    ensures
        represents(doubled_closed(r), sum_by_slope(a, a, l)),
{
    let (x, y, z) = (a.x, a.y, r.z);
    let (bx, by) = (r.x, r.y);
    let d = doubled_closed(r);
    let t = sum_by_slope(a, a, l);
    let z3 = by.mul(z).scale(2);
    let zz3 = z3.square();
    let m = l.mul(z3);
    let xx = bx.square();
    let yy = by.square();
    let xyy = bx.mul(yy);
    lemma_tangent_key(x, y, z, l);
    lemma_tangent_square(x, by, z);
    lemma_tangent_cube(y, z);
    assert(xx.scale(3) == m);
    assert(x.mul(zz3) == xyy.scale(4));
    // the first coordinate
    lemma_multiple(xx, 3, xx, 3);
    assert(xx.square().scale(9) == m.mul(m));
    lemma_interchange(l, l, z3, z3);
    lemma_difference(l.square().sub(x), x, zz3);
    lemma_difference(l.square(), x, zz3);
    lemma_differences(m.mul(m), xyy, xyy);
    assert(t.x.mul(zz3) == d.x);
    // the second coordinate
    let e = x.sub(t.x);
    let w = zz3.mul(z3);
    lemma_difference(l.mul(e), y, w);
    lemma_interchange(l, e, zz3, z3);
    lemma_difference(x, t.x, zz3);
    assert(l.mul(e).mul(w) == m.mul(xyy.scale(4).sub(d.x)));
    assert(t.y.mul(w) == d.y);
}

/// The tangent in closed form is the line of slope `l` through `a`.
proof fn lemma_tangent_line(r: ProjectiveValue, a: AffineValue, l: Fq2Value)
    requires
        represents(r, a),
        tangent_slope(a, l),
    ensures
        tangent_closed(r) == line_by_slope(a, l, tangent_closed(r).c0),
{
    let (x, y, z) = (a.x, a.y, r.z);
    let (bx, by) = (r.x, r.y);
    let zz = z.square();
    let zzz = zz.mul(z);
    let xx = bx.square();
    let z3 = by.mul(z).scale(2);
    let m = l.mul(z3);
    let c = tangent_closed(r);
    lemma_tangent_key(x, y, z, l);
    assert(xx.scale(3) == m);
    // l c0 = 6 X^2 Z^2
    lemma_multiple(l, 1, by.mul(zzz), 4);
    lemma_multiple(xx.mul(zz), 3, xx, 2);
    lemma_multiple(xx, 3, zz, 1);
    lemma_mul_laws2(l, z3, zz);
    lemma_multiple(by.mul(z), 2, zz, 1);
    lemma_mul_laws2(by, z, zz);
    lemma_mul_laws2(z, zz, z);
    lemma_multiple(l, 1, by.mul(zzz), 2);
    lemma_multiple(l.mul(by.mul(zzz)), 2, l, 2);
    let t6 = xx.mul(zz).scale(6);
    assert(l.mul(c.c0) == t6);
    // c0 (l x - y) = 6 X^3 - 4 Y^2
    lemma_difference(l.mul(x), y, c.c0);
    lemma_mul_laws2(c.c0, l, x);
    lemma_mul_laws2(c.c0, l, c.c0);
    lemma_multiple(xx.mul(zz), 6, x, 1);
    lemma_mul_laws2(xx, zz, x);
    lemma_mul_laws2(zz, x, zz);
    assert(c.c0.mul(l.mul(x)) == xx.mul(bx).scale(6));
    lemma_multiple(by.mul(zzz), 4, y, 1);
    lemma_mul_laws2(by, zzz, y);
    lemma_mul_laws2(zzz, y, zzz);
    assert(c.c0.mul(y) == by.square().scale(4));
}

/// Where `l (x2 - x1) = y2 - y1`, `X = x1 Z^2` and `Y = y1 Z^3`: the
/// difference `H` is `Z^2 (x2 - x1)`, and `2 (y2 Z^3 - Y) = l (2 Z H)`.
proof fn lemma_chord_key(a: AffineValue, p: AffineValue, z: Fq2Value, l: Fq2Value)
    requires
        chord_slope(a, p, l),
    ensures
        ({
            let zz = z.square();
            let zzz = zz.mul(z);
            let h = zz.mul(p.x).sub(a.x.mul(zz));
            &&& h == zz.mul(p.x.sub(a.x))
            &&& p.y.mul(zzz).sub(a.y.mul(zzz)).scale(2) == l.mul(z.mul(h).scale(2))
        }),
{
    let zz = z.square();
    let zzz = zz.mul(z);
    let e = p.x.sub(a.x);
    let h = zz.mul(p.x).sub(a.x.mul(zz));
    lemma_difference(p.x, a.x, zz);
    lemma_mul_laws2(a.x, zz, zz);
    assert(h == zz.mul(e));
    lemma_difference(p.y, a.y, zzz);
    assert(p.y.mul(zzz).sub(a.y.mul(zzz)) == l.mul(e).mul(zzz));
    lemma_multiple(l, 1, z.mul(h), 2);
    lemma_mul_laws2(z, zz, e);
    lemma_mul_laws2(z, zz, z);
    lemma_mul_laws2(zzz, e, zzz);
    lemma_mul_laws2(l, e, zzz);
    assert(l.mul(z.mul(h)) == l.mul(e).mul(zzz));
}

/// The square of `2 Z H` and its products with the first coordinates of the
/// two points, where `X = x1 Z^2` and `H = Z^2 x2 - X`.
proof fn lemma_chord_square(x1: Fq2Value, x2: Fq2Value, z: Fq2Value)
    ensures
        ({
            let zz = z.square();
            let bx = x1.mul(zz);
            let g = zz.mul(x2);
            let h = g.sub(bx);
            let zz3 = z.mul(h).scale(2).square();
            &&& zz3 == zz.mul(h.square()).scale(4)
            &&& x1.mul(zz3) == bx.mul(h.square()).scale(4)
            &&& x2.mul(zz3) == g.mul(h.square()).scale(4)
            &&& h.square().mul(h) == g.mul(h.square()).sub(bx.mul(h.square()))
        }),
{
    let zz = z.square();
    let bx = x1.mul(zz);
    let g = zz.mul(x2);
    let h = g.sub(bx);
    let hh = h.square();
    lemma_multiple(z.mul(h), 2, z.mul(h), 2);
    lemma_interchange(z, h, z, h);
    lemma_multiple(x1, 1, zz.mul(hh), 4);
    lemma_multiple(x2, 1, zz.mul(hh), 4);
    lemma_mul_laws2(x1, zz, hh);
    lemma_mul_laws2(x2, zz, hh);
    lemma_mul_laws2(x2, zz, x2);
    lemma_mul_laws2(hh, h, hh);
    lemma_difference(g, bx, hh);
}

/// The cube of `2 Z H` times `y1`, where `Y = y1 Z^3`: `8 Y H^3`.
proof fn lemma_chord_cube(y1: Fq2Value, z: Fq2Value, h: Fq2Value)
    ensures
        ({
            let z3 = z.mul(h).scale(2);
            y1.mul(z3.square().mul(z3)) == y1.mul(z.square().mul(z)).mul(
                h.square().mul(h),
            ).scale(8)
        }),
{
    let zz = z.square();
    let zzz = zz.mul(z);
    let hh = h.square();
    let hhh = hh.mul(h);
    let z3 = z.mul(h).scale(2);
    lemma_multiple(z.mul(h), 2, z.mul(h), 2);
    lemma_interchange(z, h, z, h);
    lemma_multiple(zz.mul(hh), 4, z.mul(h), 2);
    lemma_interchange(zz, hh, z, h);
    assert(z3.square().mul(z3) == zzz.mul(hhh).scale(8));
    lemma_multiple(y1, 1, zzz.mul(hhh), 8);
    lemma_mul_laws2(y1, zzz, hhh);
}

/// The addition step follows the chord rule: where `r` stands for `a` and
/// `l` is the slope of the chord through `a` and `p`, the sum of `r` and `p`
/// stands for the sum of `a` and `p`, and the line is the chord through `p`.
pub proof fn lemma_addition_step(r: ProjectiveValue, a: AffineValue, p: AffineValue, l: Fq2Value)
    requires
        represents(r, a),
        chord_slope(a, p, l),
    ensures
        represents(r.added(p), sum_by_slope(a, p, l)),
        r.chord(p) == line_by_slope(p, l, chord_closed(r, p).c0),
{
    lemma_added_closed(r, p);
    lemma_chord_closed(r, p);
    lemma_added_point(r, a, p, l);
    lemma_chord_line(r, a, p, l);
}

/// The sum in closed form stands for the sum of `a` and `p`.
proof fn lemma_added_point(r: ProjectiveValue, a: AffineValue, p: AffineValue, l: Fq2Value)
    requires
        represents(r, a),
        chord_slope(a, p, l),
    ensures
        represents(added_closed(r, p), sum_by_slope(a, p, l)),
{
    let z = r.z;
    let (bx, by) = (r.x, r.y);
    let (h, s) = slope_closed(r, p);
    let d = added_closed(r, p);
    let t = sum_by_slope(a, p, l);
    let zz = z.square();
    let g = zz.mul(p.x);
    let hh = h.square();
    let z3 = z.mul(h).scale(2);
    let zz3 = z3.square();
    lemma_chord_key(a, p, z, l);
    lemma_chord_square(a.x, p.x, z);
    lemma_chord_cube(a.y, z, h);
    assert(s == l.mul(z3));
    // the first coordinate
    lemma_interchange(l, l, z3, z3);
    lemma_difference(l.square().sub(a.x), p.x, zz3);
    lemma_difference(l.square(), a.x, zz3);
    lemma_differences(s.mul(s), bx.mul(hh), g.mul(hh));
    assert(t.x.mul(zz3) == d.x);
    // the second coordinate
    let e = a.x.sub(t.x);
    let w = zz3.mul(z3);
    lemma_difference(l.mul(e), a.y, w);
    lemma_interchange(l, e, zz3, z3);
    lemma_difference(a.x, t.x, zz3);
    lemma_mul_laws2(s, bx.mul(hh).scale(4).sub(d.x), s);
    assert(l.mul(e).mul(w) == bx.mul(hh).scale(4).sub(d.x).mul(s));
    assert(t.y.mul(w) == d.y);
}

/// The chord in closed form is the line of slope `l` through `p`.
proof fn lemma_chord_line(r: ProjectiveValue, a: AffineValue, p: AffineValue, l: Fq2Value)
    requires
        represents(r, a),
        chord_slope(a, p, l),
    ensures
        chord_closed(r, p) == line_by_slope(p, l, chord_closed(r, p).c0),
{
    let z = r.z;
    let (h, s) = slope_closed(r, p);
    let c = chord_closed(r, p);
    let z3 = z.mul(h).scale(2);
    lemma_chord_key(a, p, z, l);
    assert(s == l.mul(z3));
    // l c0 = 2 s
    lemma_multiple(z.mul(h), 2, z, 2);
    assert(c.c0 == z3.scale(2));
    lemma_multiple(l, 1, z3, 2);
    assert(l.mul(c.c0) == s.scale(2));
    // c0 (l x - y) = 2 (s x - y Z3)
    lemma_difference(l.mul(p.x), p.y, c.c0);
    lemma_mul_laws2(c.c0, l, p.x);
    lemma_mul_laws2(c.c0, l, c.c0);
    lemma_multiple(s, 2, p.x, 1);
    lemma_multiple(z3, 2, p.y, 1);
    lemma_mul_laws2(z3, p.y, z3);
    lemma_multiple(s.mul(p.x), 2, p.y.mul(z3), 1);
}

} // verus!
