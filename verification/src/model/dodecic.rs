//! The dodecic extension Fq12 = Fq6[w]/(w^2 - v) as pairs over the model of
//! Fq6, with the operations of the final exponentiation.

use crate::model::quadratic::{lemma_times_xi2, Fq2Value};
use crate::model::sextic::{
    lemma_canonical_equal6, lemma_cross6, lemma_eqv_minus6, lemma_eqv_plus6, lemma_eqv_times6,
    lemma_eqv_unary6, lemma_reduce6, lemma_times_associates6, lemma_times_distributes6,
    lemma_times_unit6, Fq6Value,
};
use crate::params::frobenius_coeff_fq12_c1;
use vstd::prelude::*;

verus! {

/// `c0 + c1 * w`.
pub struct Fq12Value {
    pub c0: Fq6Value,
    pub c1: Fq6Value,
}

impl Fq12Value {
    pub open spec fn zero() -> Self {
        Fq12Value { c0: Fq6Value::zero(), c1: Fq6Value::zero() }
    }

    pub open spec fn one() -> Self {
        Fq12Value { c0: Fq6Value::one(), c1: Fq6Value::zero() }
    }

    /// The element `c0 + (c3 + c4 v) w` that a line function gives.
    pub open spec fn sparse(c0: Fq2Value, c3: Fq2Value, c4: Fq2Value) -> Self {
        Fq12Value {
            c0: Fq6Value { c0, c1: Fq2Value::zero(), c2: Fq2Value::zero() },
            c1: Fq6Value { c0: c3, c1: c4, c2: Fq2Value::zero() },
        }
    }

    /// All coefficients are canonical.
    pub open spec fn canonical(self) -> bool {
        self.c0.canonical() && self.c1.canonical()
    }

    /// The two denote the same element of Fq12.
    pub open spec fn eqv(self, o: Self) -> bool {
        self.c0.eqv(o.c0) && self.c1.eqv(o.c1)
    }

    /// The canonical representative.
    pub open spec fn reduce(self) -> Self {
        Fq12Value { c0: self.c0.reduce(), c1: self.c1.reduce() }
    }

    pub open spec fn plus(self, o: Self) -> Self {
        Fq12Value { c0: self.c0.plus(o.c0), c1: self.c1.plus(o.c1) }
    }

    /// `(a0 + a1 w)(b0 + b1 w) = (a0 b0 + v a1 b1) + (a0 b1 + a1 b0) w`.
    pub open spec fn times(self, o: Self) -> Self {
        Fq12Value {
            c0: self.c0.times(o.c0).plus(self.c1.times(o.c1).times_v()),
            c1: self.c0.times(o.c1).plus(self.c1.times(o.c0)),
        }
    }

    pub open spec fn negated(self) -> Self {
        Fq12Value { c0: self.c0.negated(), c1: self.c1.negated() }
    }

    /// `a0 - a1 w`.
    pub open spec fn conj(self) -> Self {
        Fq12Value { c0: self.c0, c1: self.c1.negated() }
    }

    pub open spec fn add(self, o: Self) -> Self {
        self.plus(o).reduce()
    }

    pub open spec fn mul(self, o: Self) -> Self {
        self.times(o).reduce()
    }

    pub open spec fn square(self) -> Self {
        self.mul(self)
    }

    pub open spec fn conjugate(self) -> Self {
        self.conj().reduce()
    }

    /// The product with the sparse element `c0 + (c3 + c4 v) w`.
    pub open spec fn mul_by_034(self, c0: Fq2Value, c3: Fq2Value, c4: Fq2Value) -> Self {
        self.mul(Self::sparse(c0, c3, c4))
    }

    /// The norm down to Fq6: `a0^2 - v a1^2`.
    pub open spec fn norm(self) -> Fq6Value {
        self.c0.times(self.c0).minus(self.c1.times(self.c1).times_v()).reduce()
    }

    /// The norm down to Fq2 is not zero, which is when the inverse is
    /// computed.
    pub open spec fn invertible(self) -> bool {
        self.norm().norm() != Fq2Value::zero()
    }

    /// The conjugate over the norm.
    pub open spec fn inv(self) -> Self {
        let t = self.norm().inv();
        Fq12Value { c0: self.c0.times(t), c1: self.c1.times(t.negated()) }.reduce()
    }

    /// The `k`-th power of the Frobenius map: on both halves, and then every
    /// coefficient of the upper half times its tabulated factor.
    pub open spec fn frobenius(self, k: nat) -> Self {
        Fq12Value {
            c0: self.c0.frobenius(k),
            c1: self.c1.frobenius(k).scale(frobenius_coeff_fq12_c1((k % 12) as int)),
        }
    }
}

/// Reducing gives the canonical representative of the same element.
pub proof fn lemma_reduce12(x: Fq12Value)
    ensures
        x.reduce().eqv(x),
        x.reduce().canonical(),
        x.canonical() ==> x.reduce() == x,
{
    lemma_reduce6(x.c0);
    lemma_reduce6(x.c1);
}

/// Canonical representatives of one element are equal.
pub proof fn lemma_canonical_equal12(a: Fq12Value, b: Fq12Value)
    requires
        a.canonical(),
        b.canonical(),
        a.eqv(b),
    ensures
        a == b,
{
    lemma_canonical_equal6(a.c0, b.c0);
    lemma_canonical_equal6(a.c1, b.c1);
}

/// Sums respect `eqv`.
pub proof fn lemma_eqv_plus12(a: Fq12Value, b: Fq12Value, c: Fq12Value, d: Fq12Value)
    requires
        a.eqv(c),
        b.eqv(d),
    ensures
        a.plus(b).eqv(c.plus(d)),
        a.add(b).eqv(c.plus(d)),
{
    lemma_eqv_plus6(a.c0, b.c0, c.c0, d.c0);
    lemma_eqv_plus6(a.c1, b.c1, c.c1, d.c1);
}

/// Products respect `eqv`.
pub proof fn lemma_eqv_times12(a: Fq12Value, b: Fq12Value, c: Fq12Value, d: Fq12Value)
    requires
        a.eqv(c),
        b.eqv(d),
    ensures
        a.times(b).eqv(c.times(d)),
        a.mul(b).eqv(c.times(d)),
{
    lemma_eqv_times6(a.c0, b.c0, c.c0, d.c0);
    lemma_eqv_times6(a.c0, b.c1, c.c0, d.c1);
    lemma_eqv_times6(a.c1, b.c0, c.c1, d.c0);
    lemma_eqv_times6(a.c1, b.c1, c.c1, d.c1);
    lemma_eqv_unary6(a.c1.times(b.c1), c.c1.times(d.c1));
    lemma_eqv_plus6(
        a.c0.times(b.c0),
        a.c1.times(b.c1).times_v(),
        c.c0.times(d.c0),
        c.c1.times(d.c1).times_v(),
    );
    lemma_eqv_plus6(a.c0.times(b.c1), a.c1.times(b.c0), c.c0.times(d.c1), c.c1.times(d.c0));
    lemma_reduce12(a.times(b));
}

/// Products distribute over sums, on either side, and commute.
#[verifier::rlimit(50)]
pub proof fn lemma_times_distributes12(a: Fq12Value, b: Fq12Value, c: Fq12Value)
    ensures
        a.plus(b).times(c) == a.times(c).plus(b.times(c)),
        c.times(a.plus(b)) == c.times(a).plus(c.times(b)),
        a.times(b) == b.times(a),
{
    lemma_times_distributes6(a.c0, b.c0, c.c0);
    lemma_times_distributes6(a.c0, b.c0, c.c1);
    lemma_times_distributes6(a.c1, b.c1, c.c0);
    lemma_times_distributes6(a.c1, b.c1, c.c1);
    lemma_times_distributes6(a.c0, b.c1, c.c0);
    lemma_times_distributes6(a.c1, b.c0, c.c0);
}

/// The product with `v` goes into a factor of a product.
pub proof fn lemma_times_v6(x: Fq6Value, y: Fq6Value)
    ensures
        x.times(y).times_v() == x.times(y.times_v()),
        x.times(y).times_v() == x.times_v().times(y),
{
    lemma_times_xi2(x.c0, y.c0);
    lemma_times_xi2(x.c0, y.c1);
    lemma_times_xi2(x.c0, y.c2);
    lemma_times_xi2(x.c1, y.c0);
    lemma_times_xi2(x.c1, y.c1);
    lemma_times_xi2(x.c1, y.c2);
    lemma_times_xi2(x.c2, y.c0);
    lemma_times_xi2(x.c2, y.c1);
    lemma_times_xi2(x.c2, y.c2);
    lemma_times_xi2(x.c0.times(y.c2), x.c1.times(y.c1));
    lemma_times_xi2(x.c0.times(y.c2).plus(x.c1.times(y.c1)), x.c2.times(y.c0));
    lemma_times_xi2(x.c1.times(y.c1), x.c2.times(y.c0));
    lemma_times_xi2(x.c1.times(y.c2), x.c2.times(y.c1));
}

/// The product from three products in Fq6: `aa = a0 b0`, `bb = a1 b1` and
/// `(a0 + a1)(b0 + b1)`.
pub proof fn lemma_mul12(x: Fq12Value, y: Fq12Value)
    ensures
        ({
            let aa = x.c0.mul(y.c0);
            let bb = x.c1.mul(y.c1);
            Fq12Value {
                c0: aa.add(bb.mul_by_nonres()),
                c1: x.c0.add(x.c1).mul(y.c0.add(y.c1)).sub(aa).sub(bb),
            }
        }) == x.mul(y),
{
    let aa = x.c0.mul(y.c0);
    let bb = x.c1.mul(y.c1);
    let want = x.times(y);
    lemma_cross6(x.c0, x.c1, y.c0, y.c1);
    lemma_reduce6(x.c0.times(y.c0));
    lemma_reduce6(x.c1.times(y.c1));
    lemma_eqv_unary6(bb, x.c1.times(y.c1));
    lemma_eqv_plus6(aa, bb.mul_by_nonres(), x.c0.times(y.c0), x.c1.times(y.c1).times_v());
    lemma_reduce6(want.c0);
    lemma_reduce6(aa.plus(bb.mul_by_nonres()));
    lemma_canonical_equal6(aa.add(bb.mul_by_nonres()), want.c0.reduce());
}

/// The complex squaring: from `ab = a0 a1` the square is
/// `((a0 + a1)(a0 + v a1) - ab - v ab) + 2 ab w`.
#[verifier::rlimit(50)]
pub proof fn lemma_square12(x: Fq12Value)
    ensures
        ({
            let ab = x.c0.mul(x.c1);
            Fq12Value {
                c0: x.c0.add(x.c1).mul(x.c0.add(x.c1.mul_by_nonres())).sub(ab).sub(
                    ab.mul_by_nonres(),
                ),
                c1: ab.double(),
            }
        }) == x.square(),
{
    let (a0, a1) = (x.c0, x.c1);
    let ab = a0.mul(a1);
    let rab = a0.times(a1);
    let s = a0.add(a1);
    let t = a0.add(a1.mul_by_nonres());
    let want = x.times(x);
    lemma_reduce6(rab);
    lemma_reduce6(a0.plus(a1));
    lemma_eqv_unary6(a1, a1);
    lemma_eqv_plus6(a0, a1.mul_by_nonres(), a0, a1.times_v());
    lemma_eqv_times6(s, t, a0.plus(a1), a0.plus(a1.times_v()));
    lemma_eqv_minus6(s.mul(t), ab, a0.plus(a1).times(a0.plus(a1.times_v())), rab);
    lemma_eqv_unary6(ab, rab);
    lemma_eqv_minus6(
        s.mul(t).sub(ab),
        ab.mul_by_nonres(),
        a0.plus(a1).times(a0.plus(a1.times_v())).minus(rab),
        rab.times_v(),
    );
    lemma_times_distributes6(a0, a1, a0.plus(a1.times_v()));
    lemma_times_distributes6(a0, a1.times_v(), a0);
    lemma_times_distributes6(a0, a1.times_v(), a1);
    lemma_times_distributes6(a0, a1, a0);
    lemma_times_v6(a0, a1);
    lemma_times_v6(a1, a1);
    assert(a0.plus(a1).times(a0.plus(a1.times_v())).minus(rab).minus(rab.times_v()) == want.c0);
    lemma_eqv_plus6(ab, ab, rab, rab);
    assert(rab.plus(rab) == want.c1);
    lemma_reduce12(want);
    lemma_reduce6(s.mul(t).sub(ab).minus(ab.mul_by_nonres()));
    lemma_reduce6(ab.plus(ab));
    lemma_canonical_equal6(s.mul(t).sub(ab).sub(ab.mul_by_nonres()), want.c0.reduce());
    lemma_canonical_equal6(ab.double(), want.c1.reduce());
}

/// The sparse product: from `t0 = c0 a0`, `t1 = a1 (c3 + c4 v)` and
/// `t2 = (a0 + a1)((c0 + c3) + c4 v)` the product with `c0 + (c3 + c4 v) w`
/// is `(t0 + v t1) + (t2 - t0 - t1) w`.
#[verifier::rlimit(50)]
pub proof fn lemma_mul_by_034(x: Fq12Value, c0: Fq2Value, c3: Fq2Value, c4: Fq2Value)
    ensures
        ({
            let t0 = x.c0.scale(c0);
            let t1 = x.c1.mul_by_01(c3, c4);
            let t2 = x.c0.add(x.c1).mul_by_01(c0.add(c3), c4);
            Fq12Value { c0: t0.add(t1.mul_by_nonres()), c1: t2.sub(t0).sub(t1) }
        }) == x.mul_by_034(c0, c3, c4),
{
    let (a0, a1) = (x.c0, x.c1);
    let z = Fq2Value::zero();
    let s = Fq12Value::sparse(c0, c3, c4);
    let (s0, s1) = (s.c0, s.c1);
    let t0 = a0.scale(c0);
    let t1 = a1.mul_by_01(c3, c4);
    let o = Fq6Value { c0: c0.add(c3), c1: c4, c2: z };
    let t2 = a0.add(a1).mul_by_01(c0.add(c3), c4);
    let want = x.times(s);
    crate::model::quadratic::lemma_times_associates2(a0.c0, z, z);
    crate::model::quadratic::lemma_times_associates2(a0.c1, z, z);
    crate::model::quadratic::lemma_times_associates2(a0.c2, z, z);
    assert(a0.scaled(c0) == a0.times(s0));
    lemma_reduce6(a0.times(s0));
    lemma_reduce6(a1.times(s1));
    crate::model::quadratic::lemma_reduce2(c0.plus(c3));
    assert(o.eqv(s0.plus(s1)));
    lemma_reduce6(a0.plus(a1));
    lemma_eqv_times6(a0.add(a1), o, a0.plus(a1), s0.plus(s1));
    lemma_eqv_minus6(t2, t0, a0.plus(a1).times(s0.plus(s1)), a0.times(s0));
    lemma_eqv_minus6(
        t2.sub(t0),
        t1,
        a0.plus(a1).times(s0.plus(s1)).minus(a0.times(s0)),
        a1.times(s1),
    );
    lemma_times_distributes6(a0, a1, s0.plus(s1));
    lemma_times_distributes6(s0, s1, a0);
    lemma_times_distributes6(s0, s1, a1);
    assert(a0.plus(a1).times(s0.plus(s1)).minus(a0.times(s0)).minus(a1.times(s1)) == want.c1);
    lemma_eqv_unary6(t1, a1.times(s1));
    lemma_eqv_plus6(t0, t1.mul_by_nonres(), a0.times(s0), a1.times(s1).times_v());
    lemma_reduce12(want);
    lemma_reduce6(t0.plus(t1.mul_by_nonres()));
    lemma_reduce6(t2.sub(t0).minus(t1));
    lemma_canonical_equal6(t0.add(t1.mul_by_nonres()), want.c0.reduce());
    lemma_canonical_equal6(t2.sub(t0).sub(t1), want.c1.reduce());
}

/// The norm and the inverse, computed with the field operations.
pub proof fn lemma_inv12(x: Fq12Value)
    ensures
        x.c0.square().sub(x.c1.square().mul_by_nonres()) == x.norm(),
        (Fq12Value {
            c0: x.c0.mul(x.norm().inv()),
            c1: x.c1.mul(x.norm().inv().neg()),
        }) == x.inv(),
{
    let (a0, a1) = (x.c0, x.c1);
    lemma_reduce6(a0.times(a0));
    lemma_reduce6(a1.times(a1));
    lemma_eqv_unary6(a1.square(), a1.times(a1));
    lemma_eqv_minus6(a0.square(), a1.square().mul_by_nonres(), a0.times(a0), a1.times(a1).times_v());
    let raw = a0.times(a0).minus(a1.times(a1).times_v());
    lemma_reduce6(raw);
    lemma_reduce6(a0.square().minus(a1.square().mul_by_nonres()));
    lemma_canonical_equal6(a0.square().sub(a1.square().mul_by_nonres()), raw.reduce());
    let t = x.norm().inv();
    lemma_eqv_unary6(t, t);
    lemma_eqv_times6(a1, t.neg(), a1, t.negated());
    lemma_reduce6(a0.times(t));
    lemma_reduce6(a1.times(t.negated()));
    lemma_reduce6(a1.times(t.neg()));
    lemma_canonical_equal6(a1.mul(t.neg()), a1.times(t.negated()).reduce());
}

/// Products associate.
#[verifier::rlimit(50)]
pub proof fn lemma_times_associates12(a: Fq12Value, b: Fq12Value, c: Fq12Value)
    ensures
        a.times(b).times(c) == a.times(b.times(c)),
{
    lemma_times_associates6(a.c0, b.c0, c.c0);
    lemma_times_associates6(a.c0, b.c0, c.c1);
    lemma_times_associates6(a.c0, b.c1, c.c0);
    lemma_times_associates6(a.c0, b.c1, c.c1);
    lemma_times_associates6(a.c1, b.c0, c.c0);
    lemma_times_associates6(a.c1, b.c0, c.c1);
    lemma_times_associates6(a.c1, b.c1, c.c0);
    lemma_times_associates6(a.c1, b.c1, c.c1);
    lemma_times_distributes6(a.c0.times(b.c0), a.c1.times(b.c1).times_v(), c.c0);
    lemma_times_v6(a.c1.times(b.c1), c.c0);
    lemma_times_distributes6(a.c0.times(b.c1), a.c1.times(b.c0), c.c0);
    lemma_times_distributes6(a.c0.times(b.c0), a.c1.times(b.c1).times_v(), c.c1);
    lemma_times_v6(a.c1.times(b.c1), c.c1);
    lemma_times_distributes6(a.c0.times(b.c1), a.c1.times(b.c0), c.c1);
    lemma_times_distributes6(b.c0.times(c.c0), b.c1.times(c.c1).times_v(), a.c0);
    lemma_times_v6(a.c0, b.c1.times(c.c1));
    lemma_times_distributes6(b.c0.times(c.c1), b.c1.times(c.c0), a.c0);
    lemma_times_distributes6(b.c0.times(c.c0), b.c1.times(c.c1).times_v(), a.c1);
    lemma_times_v6(a.c1, b.c1.times(c.c1));
    lemma_times_distributes6(b.c0.times(c.c1), b.c1.times(c.c0), a.c1);
}

/// One is neutral, and zero absorbs.
pub proof fn lemma_times_unit12(a: Fq12Value)
    ensures
        a.times(Fq12Value::one()) == a,
        Fq12Value::one().times(a) == a,
        a.times(Fq12Value::zero()) == Fq12Value::zero(),
        Fq12Value::zero().times(a) == Fq12Value::zero(),
{
    lemma_times_unit6(a.c0);
    lemma_times_unit6(a.c1);
}

/// The laws of the product in the field.
#[verifier::rlimit(50)]
pub proof fn lemma_mul_laws12(a: Fq12Value, b: Fq12Value, c: Fq12Value)
    ensures
        a.mul(b).mul(c) == a.mul(b.mul(c)),
        a.mul(b) == b.mul(a),
        a.canonical() ==> a.mul(Fq12Value::one()) == a && Fq12Value::one().mul(a) == a,
        a.mul(b).canonical(),
{
    lemma_reduce12(a.times(b));
    lemma_reduce12(b.times(c));
    lemma_eqv_times12(a.mul(b), c, a.times(b), c);
    lemma_eqv_times12(a, b.mul(c), a, b.times(c));
    lemma_times_associates12(a, b, c);
    lemma_reduce12(a.mul(b).times(c));
    lemma_reduce12(a.times(b.mul(c)));
    lemma_canonical_equal12(a.mul(b).mul(c), a.mul(b.mul(c)));
    lemma_times_distributes12(a, b, c);
    lemma_times_unit12(a);
    lemma_reduce12(a);
}

/// The product with the opposite is the opposite of the product.
pub proof fn lemma_times_negated6(a: Fq6Value, b: Fq6Value)
    ensures
        a.times(b.negated()) == a.times(b).negated(),
{
    lemma_times_distributes6(Fq6Value::zero(), b, a);
    lemma_times_unit6(a);
    assert(Fq6Value::zero().minus(b) == b.negated());
    assert(Fq6Value::zero().minus(a.times(b)) == a.times(b).negated());
}

/// An invertible element of Fq12 times its inverse is one.
#[verifier::rlimit(50)]
pub proof fn lemma_inverse12(x: Fq12Value)
    requires
        x.invertible(),
    ensures
        x.mul(x.inv()) == Fq12Value::one(),
        x.inv().mul(x) == Fq12Value::one(),
{
    let (a0, a1) = (x.c0, x.c1);
    let n = x.norm();
    let t = n.inv();
    let raw = Fq12Value { c0: a0.times(t), c1: a1.times(t.negated()) };
    let nr = a0.times(a0).minus(a1.times(a1).times_v());
    lemma_reduce12(raw);
    lemma_eqv_times12(x, x.inv(), x, raw);
    lemma_times_associates6(a0, a0, t);
    lemma_times_associates6(a1, a1, t);
    lemma_times_associates6(a0, a1, t);
    lemma_times_associates6(a1, a0, t);
    lemma_times_distributes6(a0, a1, a0);
    lemma_times_negated6(a1, t);
    lemma_times_negated6(a0, a1.times(t));
    lemma_times_negated6(a1, a1.times(t));
    lemma_times_v6(a1.times(a1), t);
    lemma_times_distributes6(a0.times(a0), a1.times(a1).times_v(), t);
    assert(a1.times(a1).times(t).negated().times_v() == a1.times(a1).times(t).times_v().negated());
    assert(x.times(raw).c0 == nr.times(t));
    assert(x.times(raw).c1 == Fq6Value::zero());
    lemma_reduce6(nr);
    lemma_eqv_times6(nr, t, n, t);
    crate::model::sextic::lemma_inverse6(n);
    lemma_reduce6(n.times(t));
    lemma_reduce12(x.times(x.inv()));
    vstd::arithmetic::div_mod::lemma_small_mod(0, crate::model::base::q() as nat);
    vstd::arithmetic::div_mod::lemma_small_mod(1, crate::model::base::q() as nat);
    lemma_canonical_equal12(x.mul(x.inv()), Fq12Value::one());
    lemma_mul_laws12(x, x.inv(), x);
}

} // verus!
