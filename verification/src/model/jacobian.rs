//! The steps on the twist in closed form. The doubling in Jacobian
//! coordinates is `(9 X^4 - 8 X Y^2, 3 X^2 (4 X Y^2 - X3) - 8 Y^4, 2 Y Z)`,
//! and its tangent has the coefficients `4 Y Z^3`, `-6 X^2 Z^2` and
//! `6 X^3 - 4 Y^2`. The addition of the affine point `(x, y)` goes by
//! `H = Z^2 x - X` and `R = 2 (y Z^3 - Y)`: the sum is
//! `(R^2 - 4 H^3 - 8 X H^2, (4 X H^2 - X3) R - 8 Y H^3, 2 Z H)`, and the
//! chord has the coefficients `4 Z H`, `-2 R` and `2 (R x - y Z3)`.

use crate::model::curve::{AffineValue, LineValue, ProjectiveValue};
use crate::model::quadratic::{
    lemma_canonical_equal2, lemma_cross2, lemma_eqv_minus2, lemma_eqv_plus2, lemma_eqv_times2,
    lemma_eqv_unary2, lemma_reduce2, lemma_times_associates2, lemma_times_distributes2, Fq2Value,
};
use vstd::prelude::*;

verus! {

/// The double of a point in closed form.
pub open spec fn doubled_closed(r: ProjectiveValue) -> ProjectiveValue {
    let xx = r.x.square();
    let yy = r.y.square();
    let xyy = r.x.mul(yy);
    let x3 = xx.square().scale(9).sub(xyy.scale(8));
    ProjectiveValue {
        x: x3,
        y: xx.scale(3).mul(xyy.scale(4).sub(x3)).sub(yy.square().scale(8)),
        z: r.y.mul(r.z).scale(2),
    }
}

/// The tangent at a point in closed form.
pub open spec fn tangent_closed(r: ProjectiveValue) -> LineValue {
    let xx = r.x.square();
    let zz = r.z.square();
    LineValue {
        c0: r.y.mul(zz.mul(r.z)).scale(4),
        c3: xx.mul(zz).scale(6).neg(),
        c4: xx.mul(r.x).scale(6).sub(r.y.square().scale(4)),
    }
}

/// A sum of an element with itself is a multiple, as are sums of those.
proof fn lemma_multiples(a: Fq2Value)
    ensures
        a.plus(a) == a.scaled(2),
        a.plus(a).plus(a) == a.scaled(3),
        a.scaled(2).plus(a.scaled(2)) == a.scaled(4),
        a.scaled(4).plus(a.scaled(4)) == a.scaled(8),
        a.scaled(3).plus(a.scaled(3)) == a.scaled(6),
        a.scaled(2).negated() == a.scaled(-2),
{
}

/// Products of multiples.
pub proof fn lemma_scaled_product(a: Fq2Value, m: int, b: Fq2Value, n: int)
    ensures
        a.scaled(m).times(b.scaled(n)) == a.times(b).scaled(m * n),
        a.scaled(m).times(b) == a.times(b).scaled(m),
        a.times(b.scaled(n)) == a.times(b).scaled(n),
{
    crate::model::norm::lemma_scaled_times(a, m, b, n);
    crate::model::norm::lemma_scaled_times(a, m, b, 1);
    crate::model::norm::lemma_scaled_times(a, 1, b, n);
    assert(a.scaled(1) == a);
    assert(b.scaled(1) == b);
    assert(m * 1 == m && 1 * n == n);
}

/// The double of an element and the multiples by an integer, in the field.
pub proof fn lemma_scale_eqv(x: Fq2Value, r: Fq2Value, k: int)
    requires
        x.eqv(r),
    ensures
        x.scale(k).eqv(r.scaled(k)),
        x.double().eqv(r.scaled(2)),
        x.neg().eqv(r.scaled(-1)),
{
    crate::model::base::lemma_congruent_mul(x.c0, k, r.c0, k);
    crate::model::base::lemma_congruent_mul(x.c1, k, r.c1, k);
    lemma_reduce2(x.scaled(k));
    lemma_eqv_plus2(x, x, r, r);
    lemma_multiples(r);
    lemma_eqv_unary2(x, r);
    assert(r.negated() == r.scaled(-1));
}

/// The doubling step is the doubling in closed form.
#[verifier::rlimit(50)]
pub proof fn lemma_doubled_closed(r: ProjectiveValue)
    ensures
        r.doubled() == doubled_closed(r),
{
    reveal(ProjectiveValue::doubled);
    let (x, y, z) = (r.x, r.y, r.z);
    // without reduction
    let ra = x.times(x);
    let rb = y.times(y);
    let rc = rb.times(rb);
    let rxb = x.times(rb);
    // the steps
    let a = x.square();
    let b = y.square();
    let c = b.square();
    lemma_reduce2(ra);
    lemma_reduce2(rb);
    lemma_eqv_times2(b, b, rb, rb);
    // d = 2 ((b + x)^2 - a - c) = 4 x b
    lemma_cross2(b, x, b, x);
    crate::model::opposite_g2::lemma_order(b.add(x).square(), a, c);
    let d0 = b.add(x).square().sub(a).sub(c);
    lemma_reduce2(b.times(x).plus(x.times(b)));
    lemma_eqv_times2(b, x, rb, x);
    lemma_eqv_times2(x, b, x, rb);
    lemma_eqv_plus2(b.times(x), x.times(b), rb.times(x), rxb);
    lemma_times_distributes2(rb, x, x);
    lemma_multiples(rxb);
    assert(d0.eqv(rxb.scaled(2)));
    let d = d0.double();
    lemma_eqv_plus2(d0, d0, rxb.scaled(2), rxb.scaled(2));
    assert(d.eqv(rxb.scaled(4)));
    // e = 3 a
    let e = a.double().add(a);
    lemma_eqv_plus2(a, a, ra, ra);
    lemma_eqv_plus2(a.double(), a, ra.plus(ra), ra);
    lemma_multiples(ra);
    assert(e.eqv(ra.scaled(3)));
    // x3 = e^2 - 2 d = 9 a^2 - 8 x b
    lemma_eqv_times2(e, e, ra.scaled(3), ra.scaled(3));
    lemma_scaled_product(ra, 3, ra, 3);
    lemma_eqv_plus2(d, d, rxb.scaled(4), rxb.scaled(4));
    let x3 = e.square().sub(d.double());
    lemma_eqv_minus2(e.square(), d.double(), ra.times(ra).scaled(9), rxb.scaled(8));
    let rx3 = ra.times(ra).scaled(9).minus(rxb.scaled(8));
    // the closed form of x3
    let xx = x.square();
    let yy = y.square();
    let xyy = x.mul(yy);
    lemma_eqv_times2(xx, xx, ra, ra);
    lemma_reduce2(xx.times(xx));
    lemma_scale_eqv(xx.square(), ra.times(ra), 9);
    lemma_eqv_times2(x, yy, x, rb);
    lemma_reduce2(x.times(yy));
    lemma_scale_eqv(xyy, rxb, 8);
    lemma_scale_eqv(xyy, rxb, 4);
    let cx3 = xx.square().scale(9).sub(xyy.scale(8));
    lemma_eqv_minus2(xx.square().scale(9), xyy.scale(8), ra.times(ra).scaled(9), rxb.scaled(8));
    lemma_reduce2(e.square().minus(d.double()));
    lemma_reduce2(xx.square().scale(9).minus(xyy.scale(8)));
    lemma_canonical_equal2(x3, cx3);
    // z3 = (z + y)^2 - b - z^2 = 2 y z
    let z3 = z.add(y).square().sub(b).sub(z.square());
    lemma_cross2(z, y, z, y);
    crate::model::opposite_g2::lemma_order(z.add(y).square(), b, z.square());
    lemma_reduce2(z.times(y).plus(y.times(z)));
    lemma_times_distributes2(y, z, z);
    lemma_multiples(y.times(z));
    lemma_reduce2(y.times(z));
    lemma_scale_eqv(y.mul(z), y.times(z), 2);
    lemma_reduce2(y.mul(z).scaled(2));
    lemma_canonical_equal2(z3, y.mul(z).scale(2));
    // y3 = (d - x3) e - 8 c
    let y3 = d.sub(x3).mul(e).sub(c.double().double().double());
    lemma_eqv_minus2(d, x3, rxb.scaled(4), rx3);
    lemma_eqv_times2(d.sub(x3), e, rxb.scaled(4).minus(rx3), ra.scaled(3));
    lemma_eqv_plus2(c, c, rc, rc);
    lemma_eqv_plus2(c.double(), c.double(), rc.plus(rc), rc.plus(rc));
    lemma_eqv_plus2(
        c.double().double(),
        c.double().double(),
        rc.plus(rc).plus(rc.plus(rc)),
        rc.plus(rc).plus(rc.plus(rc)),
    );
    lemma_multiples(rc);
    assert(c.double().double().double().eqv(rc.scaled(8)));
    lemma_eqv_minus2(
        d.sub(x3).mul(e),
        c.double().double().double(),
        rxb.scaled(4).minus(rx3).times(ra.scaled(3)),
        rc.scaled(8),
    );
    // the closed form of y3
    lemma_scale_eqv(xx, ra, 3);
    lemma_eqv_minus2(xyy.scale(4), cx3, rxb.scaled(4), rx3);
    lemma_eqv_times2(xx.scale(3), xyy.scale(4).sub(cx3), ra.scaled(3), rxb.scaled(4).minus(rx3));
    lemma_eqv_times2(yy, yy, rb, rb);
    lemma_reduce2(yy.times(yy));
    lemma_scale_eqv(yy.square(), rc, 8);
    let cy3 = xx.scale(3).mul(xyy.scale(4).sub(cx3)).sub(yy.square().scale(8));
    lemma_eqv_minus2(
        xx.scale(3).mul(xyy.scale(4).sub(cx3)),
        yy.square().scale(8),
        ra.scaled(3).times(rxb.scaled(4).minus(rx3)),
        rc.scaled(8),
    );
    lemma_times_distributes2(ra.scaled(3), rxb.scaled(4).minus(rx3), ra);
    lemma_reduce2(d.sub(x3).mul(e).minus(c.double().double().double()));
    lemma_reduce2(xx.scale(3).mul(xyy.scale(4).sub(cx3)).minus(yy.square().scale(8)));
    lemma_canonical_equal2(y3, cy3);
}

/// The tangent of the doubling step is the tangent in closed form.
#[verifier::rlimit(50)]
pub proof fn lemma_tangent_closed(r: ProjectiveValue)
    ensures
        r.tangent() == tangent_closed(r),
{
    reveal(ProjectiveValue::tangent);
    lemma_doubled_closed(r);
    let (x, y, z) = (r.x, r.y, r.z);
    let ra = x.times(x);
    let rb = y.times(y);
    let rzz = z.times(z);
    let ryz = y.times(z);
    let a = x.square();
    let b = y.square();
    let zz = z.square();
    lemma_reduce2(ra);
    lemma_reduce2(rb);
    lemma_reduce2(rzz);
    lemma_reduce2(ryz);
    // c0 = 2 (z3 z^2) = 4 y z^3
    let z3 = y.mul(z).scale(2);
    assert(r.doubled().z == z3);
    lemma_scale_eqv(y.mul(z), ryz, 2);
    lemma_eqv_times2(z3, zz, ryz.scaled(2), rzz);
    lemma_scaled_product(ryz, 2, rzz, 1);
    lemma_scale_eqv(z3.mul(zz), ryz.times(rzz).scaled(2), 2);
    lemma_reduce2(z3.times(zz));
    lemma_multiples(ryz.times(rzz));
    assert(ryz.times(rzz).scaled(2).scaled(2) == ryz.times(rzz).scaled(4));
    lemma_eqv_times2(zz, z, rzz, z);
    lemma_reduce2(zz.times(z));
    lemma_eqv_times2(y, zz.mul(z), y, rzz.times(z));
    lemma_reduce2(y.times(zz.mul(z)));
    lemma_scale_eqv(y.mul(zz.mul(z)), y.times(rzz.times(z)), 4);
    lemma_times_associates2(y, z, rzz);
    lemma_times_distributes2(z, rzz, rzz);
    assert(ryz.times(rzz) == y.times(rzz.times(z)));
    lemma_reduce2(z3.mul(zz).plus(z3.mul(zz)));
    lemma_reduce2(y.mul(zz.mul(z)).scaled(4));
    lemma_canonical_equal2(z3.mul(zz).double(), y.mul(zz.mul(z)).scale(4));
    // c3 = -2 e z^2 = -6 x^2 z^2
    let e = a.double().add(a);
    lemma_eqv_plus2(a, a, ra, ra);
    lemma_eqv_plus2(a.double(), a, ra.plus(ra), ra);
    lemma_multiples(ra);
    lemma_eqv_times2(e, zz, ra.scaled(3), rzz);
    lemma_scaled_product(ra, 3, rzz, 1);
    lemma_reduce2(e.times(zz));
    lemma_scale_eqv(e.mul(zz), ra.times(rzz).scaled(3), 2);
    lemma_scale_eqv(e.mul(zz).double(), ra.times(rzz).scaled(3).scaled(2), -1);
    lemma_eqv_times2(a, zz, ra, rzz);
    lemma_reduce2(a.times(zz));
    lemma_scale_eqv(a.mul(zz), ra.times(rzz), 6);
    lemma_scale_eqv(a.mul(zz).scale(6), ra.times(rzz).scaled(6), -1);
    assert(ra.times(rzz).scaled(3).scaled(2) == ra.times(rzz).scaled(6));
    lemma_reduce2(e.mul(zz).double().negated());
    lemma_reduce2(a.mul(zz).scale(6).negated());
    lemma_canonical_equal2(e.mul(zz).double().neg(), a.mul(zz).scale(6).neg());
    // c4 = (x + e)^2 - a - e^2 - 4 b = 6 x^3 - 4 y^2
    lemma_cross2(x, e, x, e);
    let u = x.add(e).square().sub(a).sub(e.square());
    lemma_reduce2(x.times(e).plus(e.times(x)));
    lemma_eqv_times2(x, e, x, ra.scaled(3));
    lemma_eqv_times2(e, x, ra.scaled(3), x);
    lemma_eqv_plus2(x.times(e), e.times(x), x.times(ra.scaled(3)), ra.scaled(3).times(x));
    lemma_scaled_product(x, 1, ra, 3);
    lemma_scaled_product(ra, 3, x, 1);
    lemma_times_distributes2(x, ra, ra);
    lemma_multiples(ra.times(x));
    assert(x.times(ra.scaled(3)).plus(ra.scaled(3).times(x)) == ra.times(x).scaled(6));
    lemma_eqv_plus2(b, b, rb, rb);
    lemma_eqv_plus2(b.double(), b.double(), rb.plus(rb), rb.plus(rb));
    lemma_multiples(rb);
    lemma_eqv_minus2(u, b.double().double(), ra.times(x).scaled(6), rb.scaled(4));
    lemma_eqv_times2(a, x, ra, x);
    lemma_reduce2(a.times(x));
    lemma_scale_eqv(a.mul(x), ra.times(x), 6);
    lemma_scale_eqv(b, rb, 4);
    lemma_eqv_minus2(a.mul(x).scale(6), b.scale(4), ra.times(x).scaled(6), rb.scaled(4));
    lemma_reduce2(u.minus(b.double().double()));
    lemma_reduce2(a.mul(x).scale(6).minus(b.scale(4)));
    lemma_canonical_equal2(u.sub(b.double().double()), a.mul(x).scale(6).sub(b.scale(4)));
}

/// The two values that the addition step is made of, in closed form:
/// `H = Z^2 x - X` and `R = 2 (y Z^3 - Y)`.
pub open spec fn slope_closed(r: ProjectiveValue, p: AffineValue) -> (Fq2Value, Fq2Value) {
    let zz = r.z.square();
    (zz.mul(p.x).sub(r.x), p.y.mul(zz.mul(r.z)).sub(r.y).scale(2))
}

/// The sum of a point and `p` in closed form.
pub open spec fn added_closed(r: ProjectiveValue, p: AffineValue) -> ProjectiveValue {
    let (h, s) = slope_closed(r, p);
    let hh = h.square();
    let hhh = hh.mul(h);
    let xhh = r.x.mul(hh);
    let x3 = s.square().sub(hhh.scale(4)).sub(xhh.scale(8));
    ProjectiveValue {
        x: x3,
        y: xhh.scale(4).sub(x3).mul(s).sub(r.y.mul(hhh).scale(8)),
        z: r.z.mul(h).scale(2),
    }
}

/// The chord through a point and `p` in closed form.
pub open spec fn chord_closed(r: ProjectiveValue, p: AffineValue) -> LineValue {
    let (h, s) = slope_closed(r, p);
    let z3 = r.z.mul(h).scale(2);
    LineValue {
        c0: r.z.mul(h).scale(4),
        c3: s.scale(2).neg(),
        c4: s.mul(p.x).sub(p.y.mul(z3)).scale(2),
    }
}

/// The two values of the addition step are those in closed form.
#[verifier::rlimit(50)]
pub proof fn lemma_slope_closed(r: ProjectiveValue, p: AffineValue)
    ensures
        r.slope(p) == slope_closed(r, p),
{
    let (y, z) = (r.y, r.z);
    let py = p.y;
    let zz = z.square();
    let rzz = z.times(z);
    let ryz = py.times(z);
    lemma_reduce2(rzz);
    let u = py.add(z).square().sub(py.square()).sub(zz);
    lemma_cross2(py, z, py, z);
    lemma_reduce2(py.times(z).plus(z.times(py)));
    lemma_times_distributes2(py, z, z);
    lemma_multiples(ryz);
    assert(u.eqv(ryz.scaled(2)));
    lemma_eqv_times2(u, zz, ryz.scaled(2), rzz);
    lemma_reduce2(u.times(zz));
    lemma_scaled_product(ryz, 2, rzz, 1);
    lemma_scale_eqv(y, y, 2);
    lemma_eqv_minus2(u.mul(zz), y.double(), ryz.times(rzz).scaled(2), y.scaled(2));
    lemma_reduce2(u.mul(zz).minus(y.double()));
    // the closed form
    lemma_eqv_times2(zz, z, rzz, z);
    lemma_reduce2(zz.times(z));
    lemma_eqv_times2(py, zz.mul(z), py, rzz.times(z));
    lemma_reduce2(py.times(zz.mul(z)));
    let w = py.mul(zz.mul(z));
    lemma_eqv_minus2(w, y, py.times(rzz.times(z)), y);
    lemma_reduce2(w.minus(y));
    lemma_scale_eqv(w.sub(y), py.times(rzz.times(z)).minus(y), 2);
    lemma_times_associates2(py, z, rzz);
    lemma_times_distributes2(z, rzz, rzz);
    assert(ryz.times(rzz) == py.times(rzz.times(z)));
    assert(ryz.times(rzz).scaled(2).minus(y.scaled(2)) == py.times(rzz.times(z)).minus(
        y,
    ).scaled(2));
    lemma_reduce2(w.sub(y).scaled(2));
    lemma_canonical_equal2(u.mul(zz).sub(y.double()), w.sub(y).scale(2));
}

/// The first coordinate of the sum: `s^2 - 4 h^3 - 8 x h^2`.
#[verifier::rlimit(50)]
proof fn lemma_added_x(h: Fq2Value, s: Fq2Value, x: Fq2Value)
    ensures
        s.square().sub(h.square().double().double().mul(h)).sub(
            h.square().double().double().mul(x).double(),
        ) == s.square().sub(h.square().mul(h).scale(4)).sub(x.mul(h.square()).scale(8)),
{
    let rhh = h.times(h);
    let rhhh = rhh.times(h);
    let rxhh = rhh.times(x);
    let rss = s.times(s);
    let t3 = h.square();
    let t4 = t3.double().double();
    let t5 = t4.mul(h);
    let t7 = t4.mul(x);
    lemma_reduce2(rhh);
    lemma_scale_eqv(t3, rhh, 2);
    lemma_scale_eqv(t3.double(), rhh.scaled(2), 2);
    lemma_multiples(rhh);
    assert(rhh.scaled(2).scaled(2) == rhh.scaled(4));
    assert(t4.eqv(rhh.scaled(4)));
    lemma_eqv_times2(t4, h, rhh.scaled(4), h);
    lemma_reduce2(t4.times(h));
    lemma_scaled_product(rhh, 4, h, 1);
    assert(t5.eqv(rhhh.scaled(4)));
    lemma_eqv_times2(t4, x, rhh.scaled(4), x);
    lemma_reduce2(t4.times(x));
    lemma_scaled_product(rhh, 4, x, 1);
    assert(t7.eqv(rxhh.scaled(4)));
    lemma_scale_eqv(t7, rxhh.scaled(4), 2);
    lemma_multiples(rxhh);
    assert(rxhh.scaled(4).scaled(2) == rxhh.scaled(8));
    lemma_reduce2(rss);
    lemma_eqv_minus2(s.square(), t5, rss, rhhh.scaled(4));
    lemma_eqv_minus2(s.square().sub(t5), t7.double(), rss.minus(rhhh.scaled(4)), rxhh.scaled(8));
    lemma_reduce2(s.square().sub(t5).minus(t7.double()));
    // the closed form
    let hhh = t3.mul(h);
    let xhh = x.mul(t3);
    lemma_eqv_times2(t3, h, rhh, h);
    lemma_reduce2(t3.times(h));
    lemma_eqv_times2(x, t3, x, rhh);
    lemma_reduce2(x.times(t3));
    lemma_times_distributes2(x, rhh, rhh);
    assert(xhh.eqv(rxhh));
    lemma_scale_eqv(hhh, rhhh, 4);
    lemma_scale_eqv(xhh, rxhh, 8);
    lemma_eqv_minus2(s.square(), hhh.scale(4), rss, rhhh.scaled(4));
    lemma_eqv_minus2(
        s.square().sub(hhh.scale(4)),
        xhh.scale(8),
        rss.minus(rhhh.scaled(4)),
        rxhh.scaled(8),
    );
    lemma_reduce2(s.square().sub(hhh.scale(4)).minus(xhh.scale(8)));
    lemma_canonical_equal2(
        s.square().sub(t5).sub(t7.double()),
        s.square().sub(hhh.scale(4)).sub(xhh.scale(8)),
    );
}

/// The second coordinate of the sum, for any first coordinate `x3`:
/// `(4 x h^2 - x3) s - 8 y h^3`.
#[verifier::rlimit(50)]
proof fn lemma_added_y(h: Fq2Value, s: Fq2Value, x: Fq2Value, y: Fq2Value, x3: Fq2Value)
    ensures
        h.square().double().double().mul(x).sub(x3).mul(s).sub(
            y.mul(h.square().double().double().mul(h)).double(),
        ) == x.mul(h.square()).scale(4).sub(x3).mul(s).sub(y.mul(h.square().mul(h)).scale(8)),
{
    let rhh = h.times(h);
    let rhhh = rhh.times(h);
    let rxhh = rhh.times(x);
    let t3 = h.square();
    let t4 = t3.double().double();
    let t5 = t4.mul(h);
    let t7 = t4.mul(x);
    lemma_reduce2(rhh);
    lemma_scale_eqv(t3, rhh, 2);
    lemma_scale_eqv(t3.double(), rhh.scaled(2), 2);
    lemma_multiples(rhh);
    assert(rhh.scaled(2).scaled(2) == rhh.scaled(4));
    assert(t4.eqv(rhh.scaled(4)));
    lemma_eqv_times2(t4, h, rhh.scaled(4), h);
    lemma_reduce2(t4.times(h));
    lemma_scaled_product(rhh, 4, h, 1);
    assert(t5.eqv(rhhh.scaled(4)));
    lemma_eqv_times2(t4, x, rhh.scaled(4), x);
    lemma_reduce2(t4.times(x));
    lemma_scaled_product(rhh, 4, x, 1);
    assert(t7.eqv(rxhh.scaled(4)));
    // the steps
    lemma_eqv_minus2(t7, x3, rxhh.scaled(4), x3);
    lemma_reduce2(t7.minus(x3));
    lemma_eqv_times2(t7.sub(x3), s, rxhh.scaled(4).minus(x3), s);
    lemma_reduce2(t7.sub(x3).times(s));
    lemma_eqv_times2(y, t5, y, rhhh.scaled(4));
    lemma_reduce2(y.times(t5));
    lemma_scaled_product(y, 1, rhhh, 4);
    lemma_scale_eqv(y.mul(t5), y.times(rhhh).scaled(4), 2);
    lemma_multiples(y.times(rhhh));
    assert(y.times(rhhh).scaled(4).scaled(2) == y.times(rhhh).scaled(8));
    lemma_eqv_minus2(
        t7.sub(x3).mul(s),
        y.mul(t5).double(),
        rxhh.scaled(4).minus(x3).times(s),
        y.times(rhhh).scaled(8),
    );
    lemma_reduce2(t7.sub(x3).mul(s).minus(y.mul(t5).double()));
    // the closed form
    let hhh = t3.mul(h);
    let xhh = x.mul(t3);
    lemma_eqv_times2(t3, h, rhh, h);
    lemma_reduce2(t3.times(h));
    lemma_eqv_times2(x, t3, x, rhh);
    lemma_reduce2(x.times(t3));
    lemma_times_distributes2(x, rhh, rhh);
    assert(xhh.eqv(rxhh));
    lemma_scale_eqv(xhh, rxhh, 4);
    lemma_eqv_minus2(xhh.scale(4), x3, rxhh.scaled(4), x3);
    lemma_reduce2(xhh.scale(4).minus(x3));
    lemma_eqv_times2(xhh.scale(4).sub(x3), s, rxhh.scaled(4).minus(x3), s);
    lemma_reduce2(xhh.scale(4).sub(x3).times(s));
    lemma_eqv_times2(y, hhh, y, rhhh);
    lemma_reduce2(y.times(hhh));
    lemma_scale_eqv(y.mul(hhh), y.times(rhhh), 8);
    lemma_eqv_minus2(
        xhh.scale(4).sub(x3).mul(s),
        y.mul(hhh).scale(8),
        rxhh.scaled(4).minus(x3).times(s),
        y.times(rhhh).scaled(8),
    );
    lemma_reduce2(xhh.scale(4).sub(x3).mul(s).minus(y.mul(hhh).scale(8)));
    lemma_canonical_equal2(
        t7.sub(x3).mul(s).sub(y.mul(t5).double()),
        xhh.scale(4).sub(x3).mul(s).sub(y.mul(hhh).scale(8)),
    );
}

/// The third coordinate of the sum: `(z + h)^2 - z^2 - h^2 = 2 z h`, and
/// twice that.
#[verifier::rlimit(50)]
proof fn lemma_added_z(z: Fq2Value, h: Fq2Value)
    ensures
        z.add(h).square().sub(z.square()).sub(h.square()) == z.mul(h).scale(2),
        z.mul(h).scale(2).double() == z.mul(h).scale(4),
{
    let rzh = z.times(h);
    lemma_cross2(z, h, z, h);
    lemma_reduce2(z.times(h).plus(h.times(z)));
    lemma_times_distributes2(z, h, h);
    lemma_multiples(rzh);
    lemma_reduce2(rzh);
    lemma_scale_eqv(z.mul(h), rzh, 2);
    lemma_reduce2(z.mul(h).scaled(2));
    lemma_canonical_equal2(
        z.add(h).square().sub(z.square()).sub(h.square()),
        z.mul(h).scale(2),
    );
    let z3 = z.mul(h).scale(2);
    lemma_scale_eqv(z.mul(h), rzh, 4);
    lemma_scale_eqv(z3, rzh.scaled(2), 2);
    assert(rzh.scaled(2).scaled(2) == rzh.scaled(4));
    lemma_reduce2(z3.plus(z3));
    lemma_reduce2(z.mul(h).scaled(4));
    lemma_canonical_equal2(z3.double(), z.mul(h).scale(4));
}

/// The last two coefficients of the chord: `-2 s`, and
/// `2 s x - ((y + z3)^2 - y^2 - z3^2) = 2 (s x - y z3)`.
#[verifier::rlimit(50)]
proof fn lemma_chord_coefficients(s: Fq2Value, px: Fq2Value, py: Fq2Value, z3: Fq2Value)
    ensures
        s.double().neg() == s.scale(2).neg(),
        s.mul(px).double().sub(py.add(z3).square().sub(py.square()).sub(z3.square())) == s.mul(
            px,
        ).sub(py.mul(z3)).scale(2),
{
    lemma_scale_eqv(s, s, 2);
    lemma_scale_eqv(s.double(), s.scaled(2), -1);
    lemma_scale_eqv(s.scale(2), s.scaled(2), -1);
    lemma_reduce2(s.double().negated());
    lemma_reduce2(s.scale(2).negated());
    lemma_canonical_equal2(s.double().neg(), s.scale(2).neg());
    let t10 = py.add(z3).square().sub(py.square()).sub(z3.square());
    let rsx = s.times(px);
    let ryz = py.times(z3);
    lemma_cross2(py, z3, py, z3);
    lemma_reduce2(py.times(z3).plus(z3.times(py)));
    lemma_times_distributes2(py, z3, z3);
    lemma_multiples(ryz);
    assert(t10.eqv(ryz.scaled(2)));
    lemma_reduce2(rsx);
    lemma_scale_eqv(s.mul(px), rsx, 2);
    lemma_eqv_minus2(s.mul(px).double(), t10, rsx.scaled(2), ryz.scaled(2));
    lemma_reduce2(s.mul(px).double().minus(t10));
    lemma_reduce2(ryz);
    lemma_eqv_minus2(s.mul(px), py.mul(z3), rsx, ryz);
    lemma_reduce2(s.mul(px).minus(py.mul(z3)));
    lemma_scale_eqv(s.mul(px).sub(py.mul(z3)), rsx.minus(ryz), 2);
    assert(rsx.scaled(2).minus(ryz.scaled(2)) == rsx.minus(ryz).scaled(2));
    lemma_reduce2(s.mul(px).sub(py.mul(z3)).scaled(2));
    lemma_canonical_equal2(
        s.mul(px).double().sub(t10),
        s.mul(px).sub(py.mul(z3)).scale(2),
    );
}

/// The addition step is the addition in closed form.
pub proof fn lemma_added_closed(r: ProjectiveValue, p: AffineValue)
    ensures
        r.added(p) == added_closed(r, p),
{
    reveal(ProjectiveValue::added);
    lemma_slope_closed(r, p);
    let (h, s) = r.slope(p);
    lemma_added_x(h, s, r.x);
    lemma_added_z(r.z, h);
    let x3 = s.square().sub(h.square().mul(h).scale(4)).sub(r.x.mul(h.square()).scale(8));
    lemma_added_y(h, s, r.x, r.y, x3);
}

/// The chord of the addition step is the chord in closed form.
pub proof fn lemma_chord_closed(r: ProjectiveValue, p: AffineValue)
    ensures
        r.chord(p) == chord_closed(r, p),
{
    reveal(ProjectiveValue::chord);
    lemma_slope_closed(r, p);
    lemma_added_closed(r, p);
    let (h, s) = r.slope(p);
    lemma_added_z(r.z, h);
    lemma_chord_coefficients(s, p.x, p.y, r.z.mul(h).scale(2));
}

} // verus!
