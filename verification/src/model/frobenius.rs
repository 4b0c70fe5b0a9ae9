//! That the Frobenius maps are the powers with exponent `q^k`. The tower is
//! taken apart into the integers and the elements `u`, `v` and `w`, whose
//! powers with exponent `q` are computed; the power goes through the sums and
//! products that put an element together again.

use crate::model::base::q;
use crate::model::dodecic::{
    lemma_eqv_plus12, lemma_eqv_times12, lemma_reduce12, lemma_times_unit12, Fq12Value,
};
use crate::model::power::{
    lemma_product_laws, lemma_raised_multiplies, lemma_raised_product, lemma_raised_sum, product,
};
use crate::model::quadratic::{lemma_times_associates2, Fq2Value};
use crate::model::sextic::{lemma_times_unit6, Fq6Value};
use vstd::arithmetic::power::pow;
use vstd::prelude::*;

verus! {

/// An element of Fq2 as an element of Fq12.
pub open spec fn lift2(c: Fq2Value) -> Fq12Value {
    Fq12Value {
        c0: Fq6Value { c0: c, c1: Fq2Value::zero(), c2: Fq2Value::zero() },
        c1: Fq6Value::zero(),
    }
}

/// An element of Fq6 as an element of Fq12.
pub open spec fn lift6(a: Fq6Value) -> Fq12Value {
    Fq12Value { c0: a, c1: Fq6Value::zero() }
}

/// The element `u`.
pub open spec fn unit_u() -> Fq12Value {
    lift2(Fq2Value { c0: 0, c1: 1 })
}

/// The element `v`.
pub open spec fn unit_v() -> Fq12Value {
    lift6(Fq6Value { c0: Fq2Value::zero(), c1: Fq2Value::one(), c2: Fq2Value::zero() })
}

/// The element `v^2`.
pub open spec fn unit_vv() -> Fq12Value {
    lift6(Fq6Value { c0: Fq2Value::zero(), c1: Fq2Value::zero(), c2: Fq2Value::one() })
}

/// The element `w`.
pub open spec fn unit_w() -> Fq12Value {
    Fq12Value { c0: Fq6Value::zero(), c1: Fq6Value::one() }
}

/// Products in Fq2 with zero and with integers.
proof fn lemma_sparse2(a: Fq2Value, k: int)
    ensures
        a.times(Fq2Value::zero()) == Fq2Value::zero(),
        Fq2Value::zero().times(a) == Fq2Value::zero(),
        a.times(Fq2Value::one()) == a,
        Fq2Value::one().times(a) == a,
        Fq2Value::zero().times_xi() == Fq2Value::zero(),
        a.times(Fq2Value { c0: k, c1: 0 }) == (Fq2Value { c0: a.c0 * k, c1: a.c1 * k }),
        (Fq2Value { c0: k, c1: 0 }).times(a) == (Fq2Value { c0: k * a.c0, c1: k * a.c1 }),
        a.times(Fq2Value { c0: 0, c1: 1 }) == (Fq2Value { c0: -a.c1, c1: a.c0 }),
{
    lemma_times_associates2(a, a, a);
    assert(a.c0 * 0 == 0 && a.c1 * 0 == 0 && 0 * a.c0 == 0 && 0 * a.c1 == 0);
    assert(a.c0 * 1 == a.c0 && a.c1 * 1 == a.c1);
}

/// The lift of Fq2 goes through sums and products.
pub proof fn lemma_lift2(a: Fq2Value, b: Fq2Value)
    ensures
        product(lift2(a), lift2(b)) == lift2(a.times(b)),
        lift2(a).plus(lift2(b)) == lift2(a.plus(b)),
{
    reveal(product);
    lemma_lift6(lift2(a).c0, lift2(b).c0);
    lemma_sparse2(a, 0);
    lemma_sparse2(b, 0);
    lemma_sparse2(Fq2Value::zero(), 0);
}

/// The lift of Fq6 goes through sums and products.
pub proof fn lemma_lift6(a: Fq6Value, b: Fq6Value)
    ensures
        product(lift6(a), lift6(b)) == lift6(a.times(b)),
        lift6(a).plus(lift6(b)) == lift6(a.plus(b)),
{
    reveal(product);
    lemma_times_unit6(a);
    lemma_times_unit6(b);
    lemma_times_unit6(Fq6Value::zero());
    lemma_sparse2(Fq2Value::zero(), 0);
}

/// The integers go through products and powers.
pub proof fn lemma_integer_power(a: int, n: nat)
    ensures
        Fq12Value::integer(a).raised(n) == Fq12Value::integer(pow(a, n)),
    decreases n,
{
    reveal(pow);
    if n > 0 {
        lemma_integer_power(a, (n - 1) as nat);
        lemma_lift2(Fq2Value { c0: a, c1: 0 }, Fq2Value { c0: pow(a, (n - 1) as nat), c1: 0 });
        lemma_sparse2(Fq2Value { c0: a, c1: 0 }, pow(a, (n - 1) as nat));
        assert(0 * pow(a, (n - 1) as nat) == 0);
    }
}

/// The power of an integer with exponent `q` is the integer, in the field.
pub proof fn lemma_integer_frobenius(a: int)
    ensures
        Fq12Value::integer(a).raised(q() as nat).eqv(Fq12Value::integer(a)),
{
    lemma_integer_power(a, q() as nat);
    crate::model::base::lemma_power_q(a);
}

/// `u^q = -u`.
pub proof fn lemma_power_of_u()
    ensures
        unit_u().raised(q() as nat) == product(unit_u(), Fq12Value::integer(-1)),
{
    let u = unit_u();
    let m = ((q() - 1) / 2) as nat;
    assert(q() == 2 * m + 1);
    assert(m % 2 == 1);
    lemma_raised_multiplies(u, 2, m);
    assert(u.raised(2) == product(u, product(u, Fq12Value::one()))) by {
        assert(u.raised(1) == product(u, u.raised(0)));
    }
    lemma_product_laws(u, u, u);
    lemma_lift2(Fq2Value { c0: 0, c1: 1 }, Fq2Value { c0: 0, c1: 1 });
    lemma_sparse2(Fq2Value { c0: 0, c1: 1 }, 0);
    assert(u.raised(2) == Fq12Value::integer(-1));
    lemma_integer_power(-1, m);
    crate::model::base::lemma_odd_power_of_opposite(1, m);
    vstd::arithmetic::power::lemma1_pow(m);
    assert(u.raised((2 * m) as nat) == Fq12Value::integer(-1));
    assert(u.raised(q() as nat) == product(u, u.raised((2 * m) as nat)));
}

/// The power with exponent `q` of an element of Fq2 is its conjugate.
pub proof fn lemma_frobenius_lift2(c: Fq2Value)
    ensures
        lift2(c).raised(q() as nat).eqv(lift2(c.conj())),
{
    let n = q() as nat;
    let (a, b) = (c.c0, c.c1);
    let u = unit_u();
    let ia = Fq12Value::integer(a);
    let ib = Fq12Value::integer(b);
    let bu = product(ib, u);
    lemma_lift2(Fq2Value { c0: b, c1: 0 }, Fq2Value { c0: 0, c1: 1 });
    lemma_sparse2(Fq2Value { c0: b, c1: 0 }, 0);
    assert(bu == lift2(Fq2Value { c0: 0, c1: b }));
    assert(lift2(c) == ia.plus(bu));
    lemma_raised_sum(ia, bu);
    lemma_raised_product(ib, u, n);
    lemma_integer_frobenius(a);
    lemma_integer_frobenius(b);
    lemma_power_of_u();
    let minus_u = product(u, Fq12Value::integer(-1));
    lemma_lift2(Fq2Value { c0: 0, c1: 1 }, Fq2Value { c0: -1, c1: 0 });
    lemma_sparse2(Fq2Value { c0: 0, c1: 1 }, -1);
    assert(minus_u == lift2(Fq2Value { c0: 0, c1: -1 }));
    lemma_product_eqv(ib.raised(n), u.raised(n), ib, minus_u);
    lemma_lift2(Fq2Value { c0: b, c1: 0 }, Fq2Value { c0: 0, c1: -1 });
    lemma_sparse2(Fq2Value { c0: 0, c1: -1 }, b);
    assert(b * -1 == -b);
    assert(product(ib, minus_u) == lift2(Fq2Value { c0: 0, c1: -b }));
    lemma_eqv_plus12(ia.raised(n), bu.raised(n), ia, product(ib, minus_u));
    assert(ia.plus(product(ib, minus_u)) == lift2(c.conj()));
}

/// Products respect `eqv`.
pub proof fn lemma_product_eqv(a: Fq12Value, b: Fq12Value, c: Fq12Value, d: Fq12Value)
    requires
        a.eqv(c),
        b.eqv(d),
    ensures
        product(a, b).eqv(product(c, d)),
{
    reveal(product);
    lemma_eqv_times12(a, b, c, d);
}

/// `xi^e` is `a + b u` in the field. The definition is kept out of sight of
/// the solver where the powers are computed.
#[verifier::opaque]
pub open spec fn xi_power_is(e: nat, a: int, b: int) -> bool {
    lift2(Fq2Value::xi()).raised(e).eqv(lift2(Fq2Value { c0: a, c1: b }))
}

/// The power of `xi` with exponent zero is one.
pub proof fn lemma_xi_start()
    ensures
        xi_power_is(0, 1, 0),
{
    reveal(xi_power_is);
    assert(lift2(Fq2Value::xi()).raised(0) == lift2(Fq2Value::one()));
}

/// The square of a power of `xi`, in the field, from the reduced products
/// `aa`, `bb` and `ab` of the two coefficients.
pub proof fn lemma_xi_square(e: nat, a: int, b: int, aa: int, bb: int, ab: int)
    requires
        xi_power_is(e, a, b),
        aa == (a * a) % q(),
        bb == (b * b) % q(),
        ab == (a * b) % q(),
    ensures
        xi_power_is(2 * e, (aa + q() - bb) % q(), (2 * ab) % q()),
{
    reveal(xi_power_is);
    let x = Fq2Value { c0: a, c1: b };
    let g = lift2(Fq2Value::xi());
    let h = g.raised(e);
    crate::model::power::lemma_raised_adds(g, e, e);
    assert(e + e == 2 * e);
    lemma_product_eqv(h, h, lift2(x), lift2(x));
    lemma_lift2(x, x);
    crate::model::quadratic::lemma_reduce2(x.times(x));
    assert(lift2(x.times(x)).eqv(lift2(x.mul(x))));
    vstd::arithmetic::div_mod::lemma_sub_mod_noop(a * a, b * b, q());
    vstd::arithmetic::div_mod::lemma_mod_multiples_vanish(1, aa - bb, q());
    vstd::arithmetic::mul::lemma_mul_is_commutative(a, b);
    vstd::arithmetic::div_mod::lemma_mul_mod_noop_right(2, a * b, q());
    assert(x.mul(x).c0 == (aa + q() - bb) % q());
    assert(x.mul(x).c1 == (2 * ab) % q());
}

/// The next power of `xi`, in the field.
pub proof fn lemma_xi_next(e: nat, a: int, b: int)
    requires
        xi_power_is(e, a, b),
    ensures
        xi_power_is(e + 1, (9 * a + q() - b) % q(), (a + 9 * b) % q()),
{
    reveal(xi_power_is);
    let x = Fq2Value { c0: a, c1: b };
    let g = lift2(Fq2Value::xi());
    assert(g.raised(e + 1) == product(g, g.raised(e)));
    lemma_product_laws(g, g.raised(e), g);
    lemma_product_eqv(g.raised(e), g, lift2(x), g);
    lemma_lift2(x, Fq2Value::xi());
    crate::model::quadratic::lemma_reduce2(x.times(Fq2Value::xi()));
    assert(lift2(x.times(Fq2Value::xi())).eqv(lift2(x.mul(Fq2Value::xi()))));
    vstd::arithmetic::div_mod::lemma_mod_multiples_vanish(1, 9 * a - b, q());
    assert(a * 9 == 9 * a && b * 9 == 9 * b && a * 1 == a && b * 1 == b);
}

/// A product in Fq2, from the reduced products of the coefficients, so that
/// no number below zero is reduced.
pub proof fn lemma_mul_value(x: Fq2Value, y: Fq2Value, z: Fq2Value)
    requires
        z.c0 == ((x.c0 * y.c0) % q() + q() - (x.c1 * y.c1) % q()) % q(),
        z.c1 == ((x.c0 * y.c1) % q() + (x.c1 * y.c0) % q()) % q(),
    ensures
        x.mul(y) == z,
{
    vstd::arithmetic::div_mod::lemma_sub_mod_noop(x.c0 * y.c0, x.c1 * y.c1, q());
    vstd::arithmetic::div_mod::lemma_mod_multiples_vanish(
        1,
        (x.c0 * y.c0) % q() - (x.c1 * y.c1) % q(),
        q(),
    );
    vstd::arithmetic::div_mod::lemma_add_mod_noop(x.c0 * y.c1, x.c1 * y.c0, q());
}

/// The three products of the elements `v` and `w`.
proof fn lemma_units()
    ensures
        product(unit_w(), unit_w()) == unit_v(),
        product(unit_v(), unit_v()) == unit_vv(),
        product(unit_v(), unit_vv()) == lift2(Fq2Value::xi()),
        unit_w().raised(2) == unit_v(),
        unit_v().raised(3) == lift2(Fq2Value::xi()),
{
    reveal(product);
    let z = Fq2Value::zero();
    let o = Fq2Value::one();
    lemma_sparse2(o, 0);
    lemma_sparse2(z, 0);
    lemma_times_unit6(Fq6Value::one());
    lemma_times_unit6(Fq6Value::zero());
    lemma_times_unit6(unit_v().c0);
    lemma_times_unit6(unit_vv().c0);
    assert(o.times_xi() == Fq2Value::xi());
    assert(unit_v().c0.times(unit_v().c0) == unit_vv().c0);
    assert(unit_v().c0.times(unit_vv().c0) == lift2(Fq2Value::xi()).c0);
    lemma_lift6(unit_v().c0, unit_v().c0);
    lemma_lift6(unit_v().c0, unit_vv().c0);
    assert(Fq6Value::one().times_v() == unit_v().c0);
    assert(Fq6Value::zero().times_v() == Fq6Value::zero());
    assert(unit_w().times(unit_w()) == unit_v());
    let (v, w) = (unit_v(), unit_w());
    lemma_product_laws(w, w, w);
    lemma_product_laws(v, v, v);
    assert(w.raised(1) == product(w, w.raised(0)));
    assert(w.raised(2) == product(w, w.raised(1)));
    assert(v.raised(1) == product(v, v.raised(0)));
    assert(v.raised(2) == product(v, v.raised(1)));
    assert(v.raised(3) == product(v, v.raised(2)));
}

/// `w^q = w xi^((q - 1) / 6)`, in the field.
pub proof fn lemma_power_of_w()
    ensures
        unit_w().raised(q() as nat).eqv(
            product(unit_w(), lift2(crate::params::frobenius_coeff_fq12_c1(1))),
        ),
{
    reveal(xi_power_is);
    crate::model::xi_power::lemma_xi_power();
    lemma_units();
    let w = unit_w();
    let m6 = crate::model::xi_power::sixth();
    let m2 = 3 * m6;
    assert(q() == 2 * m2 + 1);
    lemma_raised_multiplies(w, 2, m2);
    lemma_raised_multiplies(unit_v(), 3, m6);
    assert(w.raised((2 * m2) as nat) == lift2(Fq2Value::xi()).raised(m6));
    assert(w.raised(q() as nat) == product(w, w.raised((2 * m2) as nat)));
    lemma_product_eqv(
        w,
        w.raised((2 * m2) as nat),
        w,
        lift2(crate::params::frobenius_coeff_fq12_c1(1)),
    );
}

/// `v^q = v xi^((q - 1) / 3)` and `(v^2)^q = v^2 xi^((2q - 2) / 3)`, in the
/// field.
#[verifier::rlimit(50)]
pub proof fn lemma_power_of_v()
    ensures
        unit_v().raised(q() as nat).eqv(
            product(unit_v(), lift2(crate::params::frobenius_coeff_fq6_c1(1))),
        ),
        unit_vv().raised(q() as nat).eqv(
            product(unit_vv(), lift2(crate::params::frobenius_coeff_fq6_c2(1))),
        ),
{
    reveal(xi_power_is);
    crate::model::xi_power::lemma_xi_power();
    lemma_units();
    let n = q() as nat;
    let v = unit_v();
    let g = lift2(Fq2Value::xi());
    let c12 = crate::params::frobenius_coeff_fq12_c1(1);
    let c1 = crate::params::frobenius_coeff_fq6_c1(1);
    let c2 = crate::params::frobenius_coeff_fq6_c2(1);
    let m6 = crate::model::xi_power::sixth();
    let m3 = 2 * m6;
    assert(q() == 3 * m3 + 1);
    lemma_raised_multiplies(v, 3, m3);
    assert(m6 * 2 == m3);
    lemma_raised_multiplies(g, m6, 2);
    // (xi^m6)^2 = c12^2 = c1
    crate::model::power::lemma_raised_eqv(g.raised(m6), lift2(c12), 2);
    let l = lift2(c12);
    assert(l.raised(1) == product(l, l.raised(0)));
    assert(l.raised(2) == product(l, l.raised(1)));
    lemma_product_laws(l, l, l);
    lemma_lift2(c12, c12);
    lemma_mul_value(c12, c12, c1);
    crate::model::quadratic::lemma_reduce2(c12.times(c12));
    assert(lift2(c12.times(c12)).eqv(lift2(c1)));
    assert(v.raised((3 * m3) as nat).eqv(lift2(c1)));
    assert(v.raised(n) == product(v, v.raised((3 * m3) as nat)));
    lemma_product_eqv(v, v.raised((3 * m3) as nat), v, lift2(c1));
    // (v v)^q = v^q v^q = (v c1)(v c1) = (v v)(c1 c1) = (v v) c2
    lemma_raised_product(v, v, n);
    let vc = product(v, lift2(c1));
    lemma_product_eqv(v.raised(n), v.raised(n), vc, vc);
    lemma_product_laws(v, lift2(c1), vc);
    lemma_product_laws(lift2(c1), v, lift2(c1));
    lemma_product_laws(v, lift2(c1), lift2(c1));
    lemma_product_laws(v, v, product(lift2(c1), lift2(c1)));
    assert(product(vc, vc) == product(unit_vv(), product(lift2(c1), lift2(c1))));
    lemma_lift2(c1, c1);
    lemma_mul_value(c1, c1, c2);
    crate::model::quadratic::lemma_reduce2(c1.times(c1));
    assert(lift2(c1.times(c1)).eqv(lift2(c2)));
    lemma_product_eqv(unit_vv(), lift2(c1.times(c1)), unit_vv(), lift2(c2));
}

/// An element of Fq6 from its coefficients and the powers of `v`.
proof fn lemma_split6(a: Fq6Value)
    ensures
        lift6(a) == lift2(a.c0).plus(product(lift2(a.c1), unit_v())).plus(
            product(lift2(a.c2), unit_vv()),
        ),
        product(lift2(a.c1), unit_v()) == lift6(
            Fq6Value { c0: Fq2Value::zero(), c1: a.c1, c2: Fq2Value::zero() },
        ),
        product(lift2(a.c2), unit_vv()) == lift6(
            Fq6Value { c0: Fq2Value::zero(), c1: Fq2Value::zero(), c2: a.c2 },
        ),
{
    let z = Fq2Value::zero();
    lemma_lift6(lift2(a.c1).c0, unit_v().c0);
    lemma_lift6(lift2(a.c2).c0, unit_vv().c0);
    lemma_sparse2(a.c1, 0);
    lemma_sparse2(a.c2, 0);
    lemma_sparse2(z, 0);
    assert(lift2(a.c1).c0.times(unit_v().c0) == (Fq6Value { c0: z, c1: a.c1, c2: z }));
    assert(lift2(a.c2).c0.times(unit_vv().c0) == (Fq6Value { c0: z, c1: z, c2: a.c2 }));
}

/// An element of Fq12 from its halves and `w`.
proof fn lemma_split12(x: Fq12Value)
    ensures
        x == lift6(x.c0).plus(product(lift6(x.c1), unit_w())),
        product(lift6(x.c1), unit_w()) == (Fq12Value { c0: Fq6Value::zero(), c1: x.c1 }),
{
    reveal(product);
    lemma_times_unit6(x.c1);
    lemma_times_unit6(Fq6Value::zero());
    lemma_sparse2(Fq2Value::zero(), 0);
    assert(Fq6Value::zero().times_v() == Fq6Value::zero());
}

/// The product with a lifted element of Fq2 scales the coefficients.
proof fn lemma_scaled6(a: Fq6Value, k: Fq2Value)
    ensures
        product(lift6(a), lift2(k)) == lift6(a.scaled(k)),
{
    let z = Fq2Value::zero();
    lemma_lift6(a, lift2(k).c0);
    lemma_sparse2(a.c0, 0);
    lemma_sparse2(a.c1, 0);
    lemma_sparse2(a.c2, 0);
    lemma_sparse2(z, 0);
    assert(a.times(lift2(k).c0) == a.scaled(k));
}

/// The power with exponent `q` of an element of Fq6 is its image under the
/// Frobenius map.
#[verifier::rlimit(50)]
pub proof fn lemma_frobenius_lift6(a: Fq6Value)
    ensures
        lift6(a).raised(q() as nat).eqv(lift6(a.frobenius(1))),
{
    let n = q() as nat;
    let (v, vv) = (unit_v(), unit_vv());
    let c1 = crate::params::frobenius_coeff_fq6_c1(1);
    let c2 = crate::params::frobenius_coeff_fq6_c2(1);
    let s0 = lift2(a.c0);
    let s1 = product(lift2(a.c1), v);
    let s2 = product(lift2(a.c2), vv);
    lemma_split6(a);
    lemma_raised_sum(s0.plus(s1), s2);
    lemma_raised_sum(s0, s1);
    lemma_raised_product(lift2(a.c1), v, n);
    lemma_raised_product(lift2(a.c2), vv, n);
    lemma_frobenius_lift2(a.c0);
    lemma_frobenius_lift2(a.c1);
    lemma_frobenius_lift2(a.c2);
    lemma_power_of_v();
    let (b0, b1, b2) = (a.c0.conj(), a.c1.conj(), a.c2.conj());
    // a1^q v^q = conj(a1) (v c1) = (conj(a1) c1) v
    lemma_product_eqv(lift2(a.c1).raised(n), v.raised(n), lift2(b1), product(v, lift2(c1)));
    lemma_product_laws(v, lift2(c1), lift2(b1));
    lemma_product_laws(lift2(b1), lift2(c1), v);
    lemma_lift2(b1, c1);
    assert(product(lift2(b1), product(v, lift2(c1))) == product(lift2(b1.times(c1)), v));
    lemma_product_eqv(lift2(a.c2).raised(n), vv.raised(n), lift2(b2), product(vv, lift2(c2)));
    lemma_product_laws(vv, lift2(c2), lift2(b2));
    lemma_product_laws(lift2(b2), lift2(c2), vv);
    lemma_lift2(b2, c2);
    assert(product(lift2(b2), product(vv, lift2(c2))) == product(lift2(b2.times(c2)), vv));
    let raw = Fq6Value { c0: b0, c1: b1.times(c1), c2: b2.times(c2) };
    lemma_split6(raw);
    lemma_eqv_plus12(s0.raised(n), s1.raised(n), lift2(b0), product(lift2(b1.times(c1)), v));
    lemma_eqv_plus12(
        s0.plus(s1).raised(n),
        s2.raised(n),
        s0.raised(n).plus(s1.raised(n)),
        s2.raised(n),
    );
    lemma_eqv_plus12(
        s0.raised(n).plus(s1.raised(n)),
        s2.raised(n),
        lift2(b0).plus(product(lift2(b1.times(c1)), v)),
        product(lift2(b2.times(c2)), vv),
    );
    assert(lift6(a).raised(n).eqv(lift6(raw)));
    // the same with the field operations
    crate::model::quadratic::lemma_reduce2(b0);
    crate::model::quadratic::lemma_reduce2(b1);
    crate::model::quadratic::lemma_reduce2(b2);
    crate::model::quadratic::lemma_eqv_times2(a.c1.conjugate(), c1, b1, c1);
    crate::model::quadratic::lemma_eqv_times2(a.c2.conjugate(), c2, b2, c2);
    assert(lift6(raw).eqv(lift6(a.frobenius(1))));
}

/// The power with exponent `q` of an element of Fq12 is its image under the
/// Frobenius map.
#[verifier::rlimit(50)]
pub proof fn lemma_frobenius_raised(x: Fq12Value)
    ensures
        x.raised(q() as nat).eqv(x.frobenius(1)),
{
    let n = q() as nat;
    let w = unit_w();
    let c = crate::params::frobenius_coeff_fq12_c1(1);
    let (a, b) = (x.c0.frobenius(1), x.c1.frobenius(1));
    let s0 = lift6(x.c0);
    let s1 = product(lift6(x.c1), w);
    lemma_split12(x);
    lemma_raised_sum(s0, s1);
    lemma_raised_product(lift6(x.c1), w, n);
    lemma_frobenius_lift6(x.c0);
    lemma_frobenius_lift6(x.c1);
    lemma_power_of_w();
    // b^q w^q = b' (w c) = (b' c) w
    lemma_product_eqv(lift6(x.c1).raised(n), w.raised(n), lift6(b), product(w, lift2(c)));
    lemma_product_laws(w, lift2(c), lift6(b));
    lemma_product_laws(lift6(b), lift2(c), w);
    lemma_scaled6(b, c);
    assert(product(lift6(b), product(w, lift2(c))) == product(lift6(b.scaled(c)), w));
    let raw = Fq12Value { c0: a, c1: b.scaled(c) };
    lemma_split12(raw);
    lemma_eqv_plus12(s0.raised(n), s1.raised(n), lift6(a), product(lift6(b.scaled(c)), w));
    assert(x.raised(n).eqv(raw));
    crate::model::sextic::lemma_reduce6(b.scaled(c));
    crate::model::sextic::lemma_reduce6(a);
    assert(raw.eqv(x.frobenius(1)));
}

/// The power with exponent `q` in Fq12 is the Frobenius map.
pub proof fn lemma_frobenius_power(x: Fq12Value)
    ensures
        x.power(q() as nat) == x.frobenius(1),
{
    crate::model::power::lemma_power_raised(x, q() as nat);
    lemma_frobenius_raised(x);
    lemma_frobenius_canonical(x, 1);
    crate::model::dodecic::lemma_canonical_equal12(x.power(q() as nat), x.frobenius(1));
}

/// The images under the Frobenius maps are canonical.
pub proof fn lemma_frobenius_canonical(x: Fq12Value, k: nat)
    ensures
        x.frobenius(k).canonical(),
{
    lemma_frobenius_canonical6(x.c0, k);
    lemma_frobenius_canonical6(x.c1, k);
    crate::model::sextic::lemma_reduce6(
        x.c1.frobenius(k).scaled(crate::params::frobenius_coeff_fq12_c1((k % 12) as int)),
    );
}

/// The images under the Frobenius maps of Fq6 are canonical.
pub proof fn lemma_frobenius_canonical6(a: Fq6Value, k: nat)
    ensures
        a.frobenius(k).canonical(),
{
    crate::model::quadratic::lemma_reduce2(a.c0);
    crate::model::quadratic::lemma_reduce2(a.c0.conj());
    let c1 = crate::params::frobenius_coeff_fq6_c1((k % 6) as int);
    let c2 = crate::params::frobenius_coeff_fq6_c2((k % 6) as int);
    crate::model::quadratic::lemma_reduce2(a.c1.frobenius(k).times(c1));
    crate::model::quadratic::lemma_reduce2(a.c2.frobenius(k).times(c2));
}

/// In Fq6 one more Frobenius map after `j` of them is `j + 1` of them.
pub proof fn lemma_frobenius_next6(a: Fq6Value, j: nat)
    ensures
        a.frobenius(j).frobenius(1) == a.frobenius(j + 1),
{
    reveal(crate::model::coefficients::follows);
    crate::model::coefficients::lemma_next_c1((j % 6) as int);
    crate::model::coefficients::lemma_next_c2((j % 6) as int);
    assert((j + 1) % 6 == ((j % 6) + 1) % 6);
    let c1 = crate::params::frobenius_coeff_fq6_c1(1);
    let c2 = crate::params::frobenius_coeff_fq6_c2(1);
    crate::model::quadratic::lemma_frobenius_next2(a.c0, j);
    crate::model::quadratic::lemma_frobenius_next2(a.c1, j);
    crate::model::quadratic::lemma_frobenius_next2(a.c2, j);
    crate::model::quadratic::lemma_semilinear2(
        a.c1.frobenius(j),
        crate::params::frobenius_coeff_fq6_c1((j % 6) as int),
        c1,
    );
    crate::model::quadratic::lemma_semilinear2(
        a.c2.frobenius(j),
        crate::params::frobenius_coeff_fq6_c2((j % 6) as int),
        c2,
    );
}

/// In Fq12 one more Frobenius map after `j` of them is `j + 1` of them.
#[verifier::rlimit(50)]
pub proof fn lemma_frobenius_next12(x: Fq12Value, j: nat)
    ensures
        x.frobenius(j).frobenius(1) == x.frobenius(j + 1),
{
    reveal(crate::model::coefficients::follows);
    crate::model::coefficients::lemma_next_c12((j % 12) as int);
    assert((j + 1) % 12 == ((j % 12) + 1) % 12);
    let g = crate::params::frobenius_coeff_fq12_c1((j % 12) as int);
    let h = crate::params::frobenius_coeff_fq12_c1(1);
    let c1 = crate::params::frobenius_coeff_fq6_c1(1);
    let c2 = crate::params::frobenius_coeff_fq6_c2(1);
    let b = x.c1.frobenius(j);
    lemma_frobenius_next6(x.c0, j);
    lemma_frobenius_next6(x.c1, j);
    crate::model::quadratic::lemma_semilinear2(b.c0, g, h);
    crate::model::quadratic::lemma_semilinear3(b.c1, g, c1, h);
    crate::model::quadratic::lemma_semilinear3(b.c2, g, c2, h);
    let z = b.scale(g);
    assert(z.c0 == b.c0.mul(g) && z.c1 == b.c1.mul(g) && z.c2 == b.c2.mul(g));
    let lhs = z.frobenius(1).scale(h);
    let rhs = b.frobenius(1).scale(crate::params::frobenius_coeff_fq12_c1(((j + 1) % 12) as int));
    assert(lhs.c0 == rhs.c0);
    assert(lhs.c1 == rhs.c1);
    assert(lhs.c2 == rhs.c2);
}

/// The product of a canonical element of Fq2 with one is the element.
pub proof fn lemma_mul_one2(x: Fq2Value)
    requires
        x.canonical(),
    ensures
        x.mul(Fq2Value::one()) == x,
        Fq2Value::one().mul(x) == x,
{
    lemma_sparse2(x, 0);
    crate::model::quadratic::lemma_reduce2(x);
}

/// No Frobenius map at all is the identity, on canonical elements, and so
/// are twelve of them.
pub proof fn lemma_frobenius_zero(x: Fq12Value)
    requires
        x.canonical(),
    ensures
        x.frobenius(0) == x,
        x.c0.frobenius(0) == x.c0,
        x.c0.c0.frobenius(0) == x.c0.c0,
        x.frobenius(12) == x,
{
    crate::model::quadratic::lemma_reduce2(x.c0.c0);
    crate::model::quadratic::lemma_reduce2(x.c0.c1);
    crate::model::quadratic::lemma_reduce2(x.c0.c2);
    crate::model::quadratic::lemma_reduce2(x.c1.c0);
    crate::model::quadratic::lemma_reduce2(x.c1.c1);
    crate::model::quadratic::lemma_reduce2(x.c1.c2);
    lemma_mul_one2(x.c0.c1);
    lemma_mul_one2(x.c0.c2);
    lemma_mul_one2(x.c1.c0);
    lemma_mul_one2(x.c1.c1);
    lemma_mul_one2(x.c1.c2);
}

/// The `k`-th Frobenius map of Fq12 is the power with exponent `q^k`.
pub proof fn lemma_frobenius12(x: Fq12Value, k: nat)
    requires
        x.canonical(),
    ensures
        pow(q(), k) > 0,
        x.frobenius(k) == x.power(pow(q(), k) as nat),
    decreases k,
{
    reveal(pow);
    if k == 0 {
        lemma_frobenius_zero(x);
        lemma_times_unit12(x);
        lemma_reduce12(x);
        assert(x.power(0) == Fq12Value::one());
        assert(x.power(1) == x.mul(x.power(0)));
    } else {
        let j = (k - 1) as nat;
        lemma_frobenius12(x, j);
        let a = pow(q(), j) as nat;
        assert(pow(q(), k) == a * q()) by (nonlinear_arith)
            requires
                pow(q(), k) == q() * a,
        ;
        assert(a * q() > 0) by (nonlinear_arith)
            requires
                a > 0,
                q() > 0,
        ;
        crate::model::power::lemma_power_multiplies(x, a, q() as nat);
        lemma_frobenius_power(x.frobenius(j));
        lemma_frobenius_next12(x, j);
    }
}

/// The lift of Fq6 goes through the product and the powers of the field.
pub proof fn lemma_lift6_power(a: Fq6Value, n: nat)
    ensures
        lift6(a).power(n) == lift6(a.power(n)),
    decreases n,
{
    vstd::arithmetic::div_mod::lemma_small_mod(0, q() as nat);
    if n > 0 {
        reveal(product);
        lemma_lift6_power(a, (n - 1) as nat);
        lemma_lift6(a, a.power((n - 1) as nat));
    }
}

/// The lift of Fq2 into Fq6 goes through the product and the powers of the
/// field.
pub proof fn lemma_lift2_power(c: Fq2Value, n: nat)
    ensures
        lift2(c).c0.power(n) == lift2(c.power(n)).c0,
    decreases n,
{
    vstd::arithmetic::div_mod::lemma_small_mod(0, q() as nat);
    if n > 0 {
        lemma_lift2_power(c, (n - 1) as nat);
        lemma_sparse2(c, 0);
        lemma_sparse2(c.power((n - 1) as nat), 0);
        lemma_sparse2(Fq2Value::zero(), 0);
    }
}

/// The `k`-th Frobenius map of Fq6 is the power with exponent `q^k`.
pub proof fn lemma_frobenius6(a: Fq6Value, k: nat)
    requires
        a.canonical(),
    ensures
        pow(q(), k) > 0,
        a.frobenius(k) == a.power(pow(q(), k) as nat),
{
    vstd::arithmetic::div_mod::lemma_small_mod(0, q() as nat);
    lemma_frobenius12(lift6(a), k);
    lemma_lift6_power(a, pow(q(), k) as nat);
}

/// The `k`-th Frobenius map of Fq2 is the power with exponent `q^k`.
pub proof fn lemma_frobenius2(c: Fq2Value, k: nat)
    requires
        c.canonical(),
    ensures
        pow(q(), k) > 0,
        c.frobenius(k) == c.power(pow(q(), k) as nat),
{
    vstd::arithmetic::div_mod::lemma_small_mod(0, q() as nat);
    lemma_frobenius6(lift2(c).c0, k);
    lemma_lift2_power(c, pow(q(), k) as nat);
}

/// Frobenius maps one after another are one Frobenius map.
pub proof fn lemma_frobenius_adds(x: Fq12Value, a: nat, b: nat)
    requires
        x.canonical(),
    ensures
        x.frobenius(a).frobenius(b) == x.frobenius(a + b),
{
    lemma_frobenius12(x, a);
    lemma_frobenius12(x, b);
    lemma_frobenius12(x, a + b);
    lemma_frobenius_canonical(x, a);
    lemma_frobenius12(x.frobenius(a), b);
    vstd::arithmetic::power::lemma_pow_adds(q(), a, b);
    crate::model::power::lemma_power_multiplies(x, pow(q(), a) as nat, pow(q(), b) as nat);
}

/// The Frobenius maps go through products.
pub proof fn lemma_frobenius_product(x: Fq12Value, y: Fq12Value, k: nat)
    requires
        x.canonical(),
        y.canonical(),
    ensures
        x.mul(y).frobenius(k) == x.frobenius(k).mul(y.frobenius(k)),
{
    lemma_frobenius12(x, k);
    lemma_frobenius12(y, k);
    lemma_reduce12(x.times(y));
    lemma_frobenius12(x.mul(y), k);
    crate::model::power::lemma_power_product(x, y, pow(q(), k) as nat);
}

/// The sixth Frobenius map is the conjugation.
pub proof fn lemma_frobenius_six(x: Fq12Value)
    requires
        x.canonical(),
    ensures
        x.frobenius(6) == x.conjugate(),
{
    let z = x.c1;
    crate::model::quadratic::lemma_reduce2(x.c0.c0);
    crate::model::quadratic::lemma_reduce2(x.c0.c1);
    crate::model::quadratic::lemma_reduce2(x.c0.c2);
    crate::model::quadratic::lemma_reduce2(z.c0);
    crate::model::quadratic::lemma_reduce2(z.c1);
    crate::model::quadratic::lemma_reduce2(z.c2);
    lemma_mul_one2(x.c0.c1);
    lemma_mul_one2(x.c0.c2);
    lemma_mul_one2(z.c1);
    lemma_mul_one2(z.c2);
    let m = Fq2Value { c0: q() - 1, c1: 0 };
    assert(crate::params::frobenius_coeff_fq12_c1(6) == m);
    lemma_times_minus_one(z.c0);
    lemma_times_minus_one(z.c1);
    lemma_times_minus_one(z.c2);
    crate::model::sextic::lemma_reduce6(x.c0);
}

/// The product with `q - 1` is the opposite, in the field.
proof fn lemma_times_minus_one(z: Fq2Value)
    ensures
        z.mul(Fq2Value { c0: q() - 1, c1: 0 }) == z.neg(),
{
    lemma_sparse2(z, q() - 1);
    assert(z.c0 * (q() - 1) == q() * z.c0 - z.c0) by (nonlinear_arith);
    assert(z.c1 * (q() - 1) == q() * z.c1 - z.c1) by (nonlinear_arith);
    vstd::arithmetic::div_mod::lemma_mod_multiples_vanish(z.c0, -z.c0, q());
    vstd::arithmetic::div_mod::lemma_mod_multiples_vanish(z.c1, -z.c1, q());
}

} // verus!
