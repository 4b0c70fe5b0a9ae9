//! The final exponentiation goes through products of invertible elements:
//! the easy part does, and the hard part does on the cyclotomic subgroup,
//! where every step of it is a map that goes through products.

use crate::model::cyclotomic::{cyclotomic, lemma_cyclotomic_square, lemma_easy_part};
use crate::model::dodecic::{lemma_inverse12, lemma_mul_laws12, lemma_reduce12, Fq12Value};
use crate::model::frobenius::{
    lemma_frobenius_adds, lemma_frobenius_canonical, lemma_frobenius_product,
    lemma_frobenius_six,
};
use crate::model::norm::lemma_invertible_product;
use crate::model::pairing::lemma_square_product;
use crate::model::power::{lemma_power_product, lemma_power_raised};
use crate::model::base::q;
use crate::model::exponents::{
    easy_exponent, final_exponent, hard_exponent, lemma_exponents, q_power, surplus,
};
use crate::model::frobenius::lemma_frobenius12;
use crate::model::power::lemma_power_multiplies;
use crate::params::BN_X;
use vstd::prelude::*;

verus! {

/// `(a b)(c d) = (a c)(b d)` in Fq12.
pub proof fn lemma_four12(a: Fq12Value, b: Fq12Value, c: Fq12Value, d: Fq12Value)
    ensures
        a.mul(b).mul(c.mul(d)) == a.mul(c).mul(b.mul(d)),
{
    lemma_mul_laws12(a, b, c.mul(d));
    lemma_mul_laws12(b, c, d);
    lemma_mul_laws12(c, b, d);
    lemma_mul_laws12(a, c, b.mul(d));
}

/// `a` and `b` lie in the cyclotomic subgroup, and `c` is their product.
/// The definition is kept out of sight of the solver where the steps of the
/// hard part are gone through.
#[verifier::opaque]
pub open spec fn pair(a: Fq12Value, b: Fq12Value, c: Fq12Value) -> bool {
    cyclotomic(a) && cyclotomic(b) && c == a.mul(b)
}

/// The product of two elements of the subgroup lies in the subgroup.
pub proof fn lemma_closed(x: Fq12Value, y: Fq12Value)
    requires
        cyclotomic(x),
        cyclotomic(y),
    ensures
        cyclotomic(x.mul(y)),
{
    lemma_mul_laws12(x, y, y);
    lemma_frobenius_product(x, y, 4);
    lemma_frobenius_product(x, y, 2);
    lemma_four12(x.frobenius(4), y.frobenius(4), x, y);
}

/// One lies in the subgroup.
pub proof fn lemma_one()
    ensures
        cyclotomic(Fq12Value::one()),
{
    crate::model::final_exp::lemma_units12();
    lemma_reduce12(Fq12Value::one());
    vstd::arithmetic::div_mod::lemma_small_mod(0, crate::model::base::q() as nat);
    vstd::arithmetic::div_mod::lemma_small_mod(1, crate::model::base::q() as nat);
}

/// The Frobenius maps and the conjugation go through a pair.
pub proof fn lemma_pair_frobenius(a: Fq12Value, b: Fq12Value, c: Fq12Value, k: nat)
    requires
        pair(a, b, c),
    ensures
        pair(a.frobenius(k), b.frobenius(k), c.frobenius(k)),
        k == 6 ==> pair(a.conjugate(), b.conjugate(), c.conjugate()),
{
    reveal(pair);
    lemma_frobenius_product(a, b, k);
    lemma_subgroup_frobenius(a, k);
    lemma_subgroup_frobenius(b, k);
    lemma_mul_laws12(a, b, b);
    if k == 6 {
        lemma_frobenius_six(a);
        lemma_frobenius_six(b);
        lemma_frobenius_six(c);
    }
}

/// The image under a Frobenius map of an element of the subgroup lies in
/// the subgroup.
pub proof fn lemma_subgroup_frobenius(x: Fq12Value, k: nat)
    requires
        cyclotomic(x),
    ensures
        cyclotomic(x.frobenius(k)),
{
    lemma_frobenius_canonical(x, k);
    lemma_frobenius_canonical(x, 4);
    lemma_frobenius_adds(x, k, 4);
    lemma_frobenius_adds(x, 4, k);
    lemma_frobenius_adds(x, k, 2);
    lemma_frobenius_adds(x, 2, k);
    lemma_frobenius_product(x.frobenius(4), x, k);
}

/// The product goes through pairs.
pub proof fn lemma_pair_mul(
    a1: Fq12Value,
    b1: Fq12Value,
    c1: Fq12Value,
    a2: Fq12Value,
    b2: Fq12Value,
    c2: Fq12Value,
)
    requires
        pair(a1, b1, c1),
        pair(a2, b2, c2),
    ensures
        pair(a1.mul(a2), b1.mul(b2), c1.mul(c2)),
{
    reveal(pair);
    lemma_closed(a1, a2);
    lemma_closed(b1, b2);
    lemma_four12(a1, b1, a2, b2);
}

/// The cyclotomic squaring goes through a pair.
pub proof fn lemma_pair_square(a: Fq12Value, b: Fq12Value, c: Fq12Value)
    requires
        pair(a, b, c),
    ensures
        pair(a.cyclotomic_square(), b.cyclotomic_square(), c.cyclotomic_square()),
{
    reveal(pair);
    lemma_closed(a, b);
    lemma_closed(a, a);
    lemma_closed(b, b);
    lemma_cyclotomic_square(a);
    lemma_cyclotomic_square(b);
    lemma_cyclotomic_square(c);
    lemma_square_product(a, b);
}

/// On the subgroup the cyclotomic power is the power, and lies in the
/// subgroup.
pub proof fn lemma_cyclotomic_pow(x: Fq12Value, e: nat)
    requires
        cyclotomic(x),
    ensures
        x.cyclotomic_pow(e) == x.power(e),
        cyclotomic(x.power(e)),
    decreases e,
{
    reveal_with_fuel(Fq12Value::cyclotomic_pow, 2);
    if e == 0 {
        lemma_one();
        assert(x.power(0) == Fq12Value::one());
    } else {
        let h = e / 2;
        lemma_cyclotomic_pow(x, h);
        let p = x.power(h);
        lemma_cyclotomic_square(p);
        lemma_closed(p, p);
        lemma_power_adds(x, h, h);
        if e % 2 == 1 {
            assert(e == h + h + 1);
            lemma_closed(p.mul(p), x);
            lemma_power_adds(x, h + h, 1);
            assert(x.power(1) == x.mul(x.power(0)));
            lemma_mul_laws12(x, x, x);
        } else {
            assert(e == h + h);
        }
    }
}

/// The power with a sum as exponent is the product of the powers, in the
/// field.
pub proof fn lemma_power_adds(x: Fq12Value, a: nat, b: nat)
    ensures
        x.power(a + b) == x.power(a).mul(x.power(b)),
{
    reveal(crate::model::power::product);
    lemma_power_raised(x, a + b);
    lemma_power_raised(x, a);
    lemma_power_raised(x, b);
    crate::model::power::lemma_raised_adds(x, a, b);
    crate::model::dodecic::lemma_eqv_times12(x.power(a), x.power(b), x.raised(a), x.raised(b));
    lemma_reduce12(x.power(a).times(x.power(b)));
    crate::model::dodecic::lemma_canonical_equal12(
        x.power(a + b),
        x.power(a).mul(x.power(b)),
    );
}

/// The power with the curve parameter as exponent goes through a pair.
pub proof fn lemma_pair_exp(a: Fq12Value, b: Fq12Value, c: Fq12Value)
    requires
        pair(a, b, c),
    ensures
        pair(a.cyclotomic_exp(), b.cyclotomic_exp(), c.cyclotomic_exp()),
{
    reveal(pair);
    lemma_closed(a, b);
    lemma_cyclotomic_pow(a, BN_X as nat);
    lemma_cyclotomic_pow(b, BN_X as nat);
    lemma_cyclotomic_pow(c, BN_X as nat);
    lemma_power_product(a, b, BN_X as nat);
}

/// The hard part goes through a pair.
#[verifier::rlimit(50)]
pub proof fn lemma_pair_hard_part(a: Fq12Value, b: Fq12Value, c: Fq12Value)
    requires
        pair(a, b, c),
    ensures
        pair(a.hard_part(), b.hard_part(), c.hard_part()),
{
    lemma_pair_frobenius(a, b, c, 1);
    lemma_pair_frobenius(a, b, c, 2);
    lemma_pair_frobenius(a.frobenius(2), b.frobenius(2), c.frobenius(2), 1);
    lemma_pair_exp(a, b, c);
    let (au, bu, cu) = (a.cyclotomic_exp(), b.cyclotomic_exp(), c.cyclotomic_exp());
    lemma_pair_exp(au, bu, cu);
    let (au2, bu2, cu2) = (au.cyclotomic_exp(), bu.cyclotomic_exp(), cu.cyclotomic_exp());
    lemma_pair_exp(au2, bu2, cu2);
    let (au3, bu3, cu3) = (au2.cyclotomic_exp(), bu2.cyclotomic_exp(), cu2.cyclotomic_exp());
    // y3
    lemma_pair_frobenius(au, bu, cu, 1);
    lemma_pair_frobenius(au.frobenius(1), bu.frobenius(1), cu.frobenius(1), 6);
    let (a3, b3, c3) = (
        au.frobenius(1).conjugate(),
        bu.frobenius(1).conjugate(),
        cu.frobenius(1).conjugate(),
    );
    // fu2p, fu3p, y2
    lemma_pair_frobenius(au2, bu2, cu2, 1);
    lemma_pair_frobenius(au3, bu3, cu3, 1);
    lemma_pair_frobenius(au2, bu2, cu2, 2);
    // y0
    lemma_pair_mul(
        a.frobenius(1),
        b.frobenius(1),
        c.frobenius(1),
        a.frobenius(2),
        b.frobenius(2),
        c.frobenius(2),
    );
    lemma_pair_mul(
        a.frobenius(1).mul(a.frobenius(2)),
        b.frobenius(1).mul(b.frobenius(2)),
        c.frobenius(1).mul(c.frobenius(2)),
        a.frobenius(2).frobenius(1),
        b.frobenius(2).frobenius(1),
        c.frobenius(2).frobenius(1),
    );
    let (a0, b0, c0) = (
        a.frobenius(1).mul(a.frobenius(2)).mul(a.frobenius(2).frobenius(1)),
        b.frobenius(1).mul(b.frobenius(2)).mul(b.frobenius(2).frobenius(1)),
        c.frobenius(1).mul(c.frobenius(2)).mul(c.frobenius(2).frobenius(1)),
    );
    // y1, y5
    lemma_pair_frobenius(a, b, c, 6);
    lemma_pair_frobenius(au2, bu2, cu2, 6);
    let (a5, b5, c5) = (au2.conjugate(), bu2.conjugate(), cu2.conjugate());
    // y4
    lemma_pair_mul(au, bu, cu, au2.frobenius(1), bu2.frobenius(1), cu2.frobenius(1));
    lemma_pair_frobenius(
        au.mul(au2.frobenius(1)),
        bu.mul(bu2.frobenius(1)),
        cu.mul(cu2.frobenius(1)),
        6,
    );
    let (a4, b4, c4) = (
        au.mul(au2.frobenius(1)).conjugate(),
        bu.mul(bu2.frobenius(1)).conjugate(),
        cu.mul(cu2.frobenius(1)).conjugate(),
    );
    // y6
    lemma_pair_mul(au3, bu3, cu3, au3.frobenius(1), bu3.frobenius(1), cu3.frobenius(1));
    lemma_pair_frobenius(
        au3.mul(au3.frobenius(1)),
        bu3.mul(bu3.frobenius(1)),
        cu3.mul(cu3.frobenius(1)),
        6,
    );
    let (ax, bx, cx) = (
        au3.mul(au3.frobenius(1)).conjugate(),
        bu3.mul(bu3.frobenius(1)).conjugate(),
        cu3.mul(cu3.frobenius(1)).conjugate(),
    );
    lemma_pair_square(ax, bx, cx);
    lemma_pair_mul(
        ax.cyclotomic_square(),
        bx.cyclotomic_square(),
        cx.cyclotomic_square(),
        a4,
        b4,
        c4,
    );
    lemma_pair_mul(
        ax.cyclotomic_square().mul(a4),
        bx.cyclotomic_square().mul(b4),
        cx.cyclotomic_square().mul(c4),
        a5,
        b5,
        c5,
    );
    let (a6, b6, c6) = (
        ax.cyclotomic_square().mul(a4).mul(a5),
        bx.cyclotomic_square().mul(b4).mul(b5),
        cx.cyclotomic_square().mul(c4).mul(c5),
    );
    // t1 = y3 y5 y6
    lemma_pair_mul(a3, b3, c3, a5, b5, c5);
    lemma_pair_mul(a3.mul(a5), b3.mul(b5), c3.mul(c5), a6, b6, c6);
    let (at, bt, ct) = (a3.mul(a5).mul(a6), b3.mul(b5).mul(b6), c3.mul(c5).mul(c6));
    // y6 y2
    lemma_pair_mul(a6, b6, c6, au2.frobenius(2), bu2.frobenius(2), cu2.frobenius(2));
    let (a7, b7, c7) = (
        a6.mul(au2.frobenius(2)),
        b6.mul(bu2.frobenius(2)),
        c6.mul(cu2.frobenius(2)),
    );
    // t1 = (t1^2 y6)^2
    lemma_pair_square(at, bt, ct);
    lemma_pair_mul(
        at.cyclotomic_square(),
        bt.cyclotomic_square(),
        ct.cyclotomic_square(),
        a7,
        b7,
        c7,
    );
    lemma_pair_square(
        at.cyclotomic_square().mul(a7),
        bt.cyclotomic_square().mul(b7),
        ct.cyclotomic_square().mul(c7),
    );
    let (as_, bs, cs) = (
        at.cyclotomic_square().mul(a7).cyclotomic_square(),
        bt.cyclotomic_square().mul(b7).cyclotomic_square(),
        ct.cyclotomic_square().mul(c7).cyclotomic_square(),
    );
    // t0 = t1 y1, t1 = t1 y0
    lemma_pair_mul(as_, bs, cs, a.conjugate(), b.conjugate(), c.conjugate());
    lemma_pair_mul(as_, bs, cs, a0, b0, c0);
    lemma_pair_square(
        as_.mul(a.conjugate()),
        bs.mul(b.conjugate()),
        cs.mul(c.conjugate()),
    );
    lemma_pair_mul(
        as_.mul(a.conjugate()).cyclotomic_square(),
        bs.mul(b.conjugate()).cyclotomic_square(),
        cs.mul(c.conjugate()).cyclotomic_square(),
        as_.mul(a0),
        bs.mul(b0),
        cs.mul(c0),
    );
}

/// The inverse of a product of invertible elements is the product of the
/// inverses.
#[verifier::rlimit(50)]
pub proof fn lemma_inverse_product(x: Fq12Value, y: Fq12Value)
    requires
        x.invertible(),
        y.invertible(),
    ensures
        x.mul(y).inv() == x.inv().mul(y.inv()),
{
    let (i, j, k) = (x.inv(), y.inv(), x.mul(y).inv());
    lemma_invertible_product(x, y);
    lemma_inverse12(x);
    lemma_inverse12(y);
    lemma_inverse12(x.mul(y));
    // k = k ((x y)(i j)) = (k (x y))(i j) = i j
    lemma_four12(x, y, i, j);
    crate::model::final_exp::lemma_units12();
    lemma_mul_laws12(k, x.mul(y), i.mul(j));
    lemma_mul_laws12(i.mul(j), i, j);
    lemma_reduce12(
        Fq12Value {
            c0: x.mul(y).c0.times(x.mul(y).norm().inv()),
            c1: x.mul(y).c1.times(x.mul(y).norm().inv().negated()),
        },
    );
    lemma_mul_laws12(k, k, k);
}

/// The easy part goes through products of invertible elements.
#[verifier::rlimit(50)]
pub proof fn lemma_easy_part_product(x: Fq12Value, y: Fq12Value)
    requires
        x.canonical(),
        y.canonical(),
        x.invertible(),
        y.invertible(),
    ensures
        x.mul(y).easy_part() == x.easy_part().mul(y.easy_part()),
{
    lemma_inverse_product(x, y);
    lemma_frobenius_six(x);
    lemma_frobenius_six(y);
    lemma_mul_laws12(x, y, y);
    lemma_frobenius_six(x.mul(y));
    lemma_frobenius_product(x, y, 6);
    let (gx, gy) = (x.inv().mul(x.conjugate()), y.inv().mul(y.conjugate()));
    lemma_four12(x.inv(), y.inv(), x.conjugate(), y.conjugate());
    lemma_mul_laws12(x.inv(), x.conjugate(), gy);
    lemma_mul_laws12(y.inv(), y.conjugate(), gx);
    lemma_frobenius_product(gx, gy, 2);
    lemma_four12(gx.frobenius(2), gy.frobenius(2), gx, gy);
}

/// The final exponentiation goes through products of invertible elements.
pub proof fn lemma_final_exp_product(x: Fq12Value, y: Fq12Value)
    requires
        x.canonical(),
        y.canonical(),
        x.invertible(),
        y.invertible(),
    ensures
        x.mul(y).final_exp() == x.final_exp().mul(y.final_exp()),
{
    reveal(pair);
    lemma_invertible_product(x, y);
    lemma_easy_part_product(x, y);
    lemma_easy_part(x);
    lemma_easy_part(y);
    lemma_pair_hard_part(x.easy_part(), y.easy_part(), x.mul(y).easy_part());
}

/// `v` lies in the cyclotomic subgroup and is the power of `f` with
/// exponent `e`. The definition is kept out of sight of the solver where
/// the steps of the hard part are gone through.
#[verifier::opaque]
pub open spec fn powered(v: Fq12Value, f: Fq12Value, e: nat) -> bool {
    cyclotomic(v) && v == f.power(e)
}

/// The Frobenius maps and the conjugation of a power.
pub proof fn lemma_powered_frobenius(v: Fq12Value, f: Fq12Value, e: nat, k: nat)
    requires
        powered(v, f, e),
    ensures
        powered(v.frobenius(k), f, e * q_power(k)),
        k == 6 ==> powered(v.conjugate(), f, e * q_power(6)),
{
    reveal(powered);
    lemma_frobenius12(v, k);
    lemma_power_multiplies(f, e, q_power(k));
    lemma_subgroup_frobenius(v, k);
    if k == 6 {
        lemma_frobenius_six(v);
    }
}

/// The product of two powers.
pub proof fn lemma_powered_mul(v1: Fq12Value, v2: Fq12Value, f: Fq12Value, e1: nat, e2: nat)
    requires
        powered(v1, f, e1),
        powered(v2, f, e2),
    ensures
        powered(v1.mul(v2), f, e1 + e2),
{
    reveal(powered);
    lemma_closed(v1, v2);
    lemma_power_adds(f, e1, e2);
}

/// The cyclotomic square of a power.
pub proof fn lemma_powered_square(v: Fq12Value, f: Fq12Value, e: nat)
    requires
        powered(v, f, e),
    ensures
        powered(v.cyclotomic_square(), f, 2 * e),
{
    reveal(powered);
    lemma_cyclotomic_square(v);
    lemma_closed(v, v);
    lemma_power_adds(f, e, e);
    assert(e + e == 2 * e);
}

/// The power of a power with the curve parameter as exponent.
pub proof fn lemma_powered_exp(v: Fq12Value, f: Fq12Value, e: nat)
    requires
        powered(v, f, e),
    ensures
        powered(v.cyclotomic_exp(), f, e * (BN_X as nat)),
{
    reveal(powered);
    lemma_cyclotomic_pow(v, BN_X as nat);
    lemma_power_multiplies(f, e, BN_X as nat);
}

/// On the cyclotomic subgroup the hard part is the power with the exponent
/// that its steps put together.
#[verifier::rlimit(50)]
pub proof fn lemma_hard_part_power(r: Fq12Value)
    requires
        cyclotomic(r),
    ensures
        r.hard_part() == r.power(hard_exponent()),
        cyclotomic(r.hard_part()),
{
    let u = BN_X as nat;
    let q1 = q_power(1);
    let q2 = q_power(2);
    let q6 = q_power(6);
    assert(powered(r, r, 1)) by {
        reveal(powered);
        lemma_mul_laws12(r, r, r);
        assert(r.power(0) == Fq12Value::one());
        assert(r.power(1) == r.mul(r.power(0)));
    }
    lemma_powered_frobenius(r, r, 1, 1);
    lemma_powered_frobenius(r, r, 1, 2);
    let fp = r.frobenius(1);
    let fp2 = r.frobenius(2);
    assert(1 * q1 == q1 && 1 * q2 == q2);
    lemma_powered_frobenius(fp2, r, q2, 1);
    let fp3 = fp2.frobenius(1);
    lemma_powered_exp(r, r, 1);
    let fu = r.cyclotomic_exp();
    assert(1 * u == u);
    lemma_powered_exp(fu, r, u);
    let fu2 = fu.cyclotomic_exp();
    lemma_powered_exp(fu2, r, u * u);
    let fu3 = fu2.cyclotomic_exp();
    lemma_powered_frobenius(fu, r, u, 1);
    lemma_powered_frobenius(fu.frobenius(1), r, u * q1, 6);
    let y3 = fu.frobenius(1).conjugate();
    lemma_powered_frobenius(fu2, r, u * u, 1);
    let fu2p = fu2.frobenius(1);
    lemma_powered_frobenius(fu3, r, u * u * u, 1);
    let fu3p = fu3.frobenius(1);
    lemma_powered_frobenius(fu2, r, u * u, 2);
    let y2 = fu2.frobenius(2);
    lemma_powered_mul(fp, fp2, r, q1, q2);
    lemma_powered_mul(fp.mul(fp2), fp3, r, q1 + q2, q2 * q1);
    let y0 = fp.mul(fp2).mul(fp3);
    lemma_powered_frobenius(r, r, 1, 6);
    let y1 = r.conjugate();
    assert(1 * q6 == q6);
    lemma_powered_frobenius(fu2, r, u * u, 6);
    let y5 = fu2.conjugate();
    lemma_powered_mul(fu, fu2p, r, u, u * u * q1);
    lemma_powered_frobenius(fu.mul(fu2p), r, u + u * u * q1, 6);
    let y4 = fu.mul(fu2p).conjugate();
    lemma_powered_mul(fu3, fu3p, r, u * u * u, u * u * u * q1);
    lemma_powered_frobenius(fu3.mul(fu3p), r, u * u * u + u * u * u * q1, 6);
    let yc = fu3.mul(fu3p).conjugate();
    let ex = (u * u * u + u * u * u * q1) * q6;
    lemma_powered_square(yc, r, ex);
    lemma_powered_mul(yc.cyclotomic_square(), y4, r, 2 * ex, (u + u * u * q1) * q6);
    lemma_powered_mul(
        yc.cyclotomic_square().mul(y4),
        y5,
        r,
        2 * ex + (u + u * u * q1) * q6,
        u * u * q6,
    );
    let y6 = yc.cyclotomic_square().mul(y4).mul(y5);
    let e6 = 2 * ex + (u + u * u * q1) * q6 + u * u * q6;
    lemma_powered_mul(y3, y5, r, (u * q1) * q6, u * u * q6);
    lemma_powered_mul(y3.mul(y5), y6, r, (u * q1) * q6 + u * u * q6, e6);
    let t1 = y3.mul(y5).mul(y6);
    let e1 = (u * q1) * q6 + u * u * q6 + e6;
    lemma_powered_mul(y6, y2, r, e6, u * u * q2);
    let y7 = y6.mul(y2);
    let e7 = e6 + u * u * q2;
    lemma_powered_square(t1, r, e1);
    lemma_powered_mul(t1.cyclotomic_square(), y7, r, 2 * e1, e7);
    lemma_powered_square(t1.cyclotomic_square().mul(y7), r, 2 * e1 + e7);
    let ts = t1.cyclotomic_square().mul(y7).cyclotomic_square();
    let es = 2 * (2 * e1 + e7);
    lemma_powered_mul(ts, y1, r, es, q6);
    lemma_powered_mul(ts, y0, r, es, q1 + q2 + q2 * q1);
    lemma_powered_square(ts.mul(y1), r, es + q6);
    lemma_powered_mul(
        ts.mul(y1).cyclotomic_square(),
        ts.mul(y0),
        r,
        2 * (es + q6),
        es + (q1 + q2 + q2 * q1),
    );
    assert(hard_exponent() == 2 * (es + q6) + (es + (q1 + q2 + q2 * q1)));
    reveal(powered);
}

/// The easy part is the power with exponent `(q^6 - 1)(q^2 + 1)`.
#[verifier::rlimit(50)]
pub proof fn lemma_easy_part_power(f: Fq12Value)
    requires
        f.canonical(),
        f.invertible(),
    ensures
        f.easy_part() == f.power(easy_exponent()),
{
    crate::model::exponents::lemma_q_powers();
    let n = (q_power(6) - 1) as nat;
    let i = f.inv();
    lemma_inverse12(f);
    lemma_frobenius12(f, 6);
    lemma_frobenius_six(f);
    // f^(q^6) = f^(q^6 - 1) f, so that f^-1 f^(q^6) = f^(q^6 - 1)
    lemma_power_adds(f, n, 1);
    assert(f.power(0) == Fq12Value::one());
    assert(f.power(1) == f.mul(f.power(0)));
    lemma_mul_laws12(f, f, f);
    let p = f.power(n);
    lemma_power_raised(f, n);
    lemma_mul_laws12(i, p, f);
    lemma_mul_laws12(p, i, f);
    lemma_mul_laws12(p, f, i);
    lemma_mul_laws12(i, p.mul(f), f);
    lemma_mul_laws12(f, i, i);
    assert(i.mul(f.conjugate()) == p);
    // g^(q^2) g = g^(q^2 + 1)
    lemma_frobenius12(p, 2);
    lemma_power_adds(p, q_power(2), 1);
    assert(p.power(0) == Fq12Value::one());
    assert(p.power(1) == p.mul(p.power(0)));
    lemma_mul_laws12(p, p, p);
    lemma_power_multiplies(f, n, q_power(2) + 1);
}

/// The final exponentiation raises an invertible element to the power
/// `(q^12 - 1) / r`.
#[verifier::rlimit(50)]
pub proof fn lemma_final_exp_power(f: Fq12Value)
    requires
        f.canonical(),
        f.invertible(),
    ensures
        f.final_exp() == f.power(final_exponent()),
{
    let one = Fq12Value::one();
    lemma_exponents();
    lemma_easy_part(f);
    lemma_easy_part_power(f);
    lemma_hard_part_power(f.easy_part());
    lemma_power_multiplies(f, easy_exponent(), hard_exponent());
    let m = (q_power(12) - 1) as nat;
    lemma_unit_order(f);
    // f^(k (q^12 - 1) + d) = (f^(q^12 - 1))^k f^d
    assert(surplus() * m == m * surplus()) by (nonlinear_arith);
    lemma_power_adds(f, m * surplus(), final_exponent());
    lemma_power_multiplies(f, m, surplus());
    lemma_one_power(surplus());
    lemma_power_raised(f, final_exponent());
    lemma_mul_laws12(f.power(final_exponent()), one, one);
}

/// Every power of one is one.
#[verifier::rlimit(50)]
pub proof fn lemma_one_power(n: nat)
    ensures
        Fq12Value::one().power(n) == Fq12Value::one(),
    decreases n,
{
    crate::model::final_exp::lemma_units12();
    if n > 0 {
        lemma_one_power((n - 1) as nat);
    }
}

/// The power of an invertible element with exponent `q^12 - 1` is one.
pub proof fn lemma_unit_order(f: Fq12Value)
    requires
        f.canonical(),
        f.invertible(),
    ensures
        f.power((q_power(12) - 1) as nat) == Fq12Value::one(),
{
    let one = Fq12Value::one();
    lemma_exponents();
    let m = (q_power(12) - 1) as nat;
    lemma_frobenius12(f, 12);
    crate::model::frobenius::lemma_frobenius_zero(f);
    lemma_power_adds(f, m, 1);
    assert(f.power(0) == one);
    assert(f.power(1) == f.mul(f.power(0)));
    lemma_mul_laws12(f, f, f);
    lemma_inverse12(f);
    lemma_power_raised(f, m);
    lemma_mul_laws12(f.power(m), f, f.inv());
    lemma_mul_laws12(f.power(m), f.power(m), f.power(m));
}

/// The power with exponent `r` of what the final exponentiation returns is
/// one.
pub proof fn lemma_final_exp_torsion(f: Fq12Value)
    requires
        f.canonical(),
    ensures
        f.final_exp().power(crate::model::exponents::group_order()) == Fq12Value::one(),
{
    let r = crate::model::exponents::group_order();
    if f.invertible() {
        lemma_final_exp_power(f);
        lemma_exponents();
        lemma_unit_order(f);
        lemma_power_multiplies(f, final_exponent(), r);
        assert(final_exponent() * r == r * final_exponent()) by (nonlinear_arith);
    } else {
        lemma_one_power(r);
    }
}

} // verus!
