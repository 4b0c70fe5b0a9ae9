//! The sextic extension Fq6 = Fq2[v]/(v^3 - xi) as triples over the model of
//! Fq2, in the same two layers: operations without reduction, and the field
//! operations that reduce them.

use crate::model::quadratic::{
    lemma_canonical_equal2, lemma_cross2, lemma_eqv_minus2, lemma_eqv_plus2, lemma_eqv_times2,
    lemma_eqv_unary2, lemma_reduce2, lemma_times_associates2, lemma_times_distributes2,
    lemma_times_xi2, Fq2Value,
};
use crate::params::{frobenius_coeff_fq6_c1, frobenius_coeff_fq6_c2};
use vstd::prelude::*;

verus! {

/// `c0 + c1 * v + c2 * v^2`.
pub struct Fq6Value {
    pub c0: Fq2Value,
    pub c1: Fq2Value,
    pub c2: Fq2Value,
}

impl Fq6Value {
    pub open spec fn zero() -> Self {
        Fq6Value { c0: Fq2Value::zero(), c1: Fq2Value::zero(), c2: Fq2Value::zero() }
    }

    pub open spec fn one() -> Self {
        Fq6Value { c0: Fq2Value::one(), c1: Fq2Value::zero(), c2: Fq2Value::zero() }
    }

    /// All coefficients are canonical.
    pub open spec fn canonical(self) -> bool {
        self.c0.canonical() && self.c1.canonical() && self.c2.canonical()
    }

    /// The two denote the same element of Fq6.
    pub open spec fn eqv(self, o: Self) -> bool {
        self.c0.eqv(o.c0) && self.c1.eqv(o.c1) && self.c2.eqv(o.c2)
    }

    /// The canonical representative.
    pub open spec fn reduce(self) -> Self {
        Fq6Value { c0: self.c0.reduce(), c1: self.c1.reduce(), c2: self.c2.reduce() }
    }

    pub open spec fn plus(self, o: Self) -> Self {
        Fq6Value { c0: self.c0.plus(o.c0), c1: self.c1.plus(o.c1), c2: self.c2.plus(o.c2) }
    }

    pub open spec fn minus(self, o: Self) -> Self {
        Fq6Value { c0: self.c0.minus(o.c0), c1: self.c1.minus(o.c1), c2: self.c2.minus(o.c2) }
    }

    pub open spec fn negated(self) -> Self {
        Fq6Value { c0: self.c0.negated(), c1: self.c1.negated(), c2: self.c2.negated() }
    }

    /// The product of two polynomials in `v`, with `v^3` replaced by `xi`.
    pub open spec fn times(self, o: Self) -> Self {
        Fq6Value {
            c0: self.c0.times(o.c0).plus(
                self.c1.times(o.c2).plus(self.c2.times(o.c1)).times_xi(),
            ),
            c1: self.c0.times(o.c1).plus(self.c1.times(o.c0)).plus(
                self.c2.times(o.c2).times_xi(),
            ),
            c2: self.c0.times(o.c2).plus(self.c1.times(o.c1)).plus(self.c2.times(o.c0)),
        }
    }

    /// The product with `v`: `xi * c2 + c0 * v + c1 * v^2`.
    pub open spec fn times_v(self) -> Self {
        Fq6Value { c0: self.c2.times_xi(), c1: self.c0, c2: self.c1 }
    }

    /// The product of every coefficient with an element of Fq2.
    pub open spec fn scaled(self, k: Fq2Value) -> Self {
        Fq6Value { c0: self.c0.times(k), c1: self.c1.times(k), c2: self.c2.times(k) }
    }

    pub open spec fn add(self, o: Self) -> Self {
        self.plus(o).reduce()
    }

    pub open spec fn sub(self, o: Self) -> Self {
        self.minus(o).reduce()
    }

    pub open spec fn neg(self) -> Self {
        self.negated().reduce()
    }

    pub open spec fn mul(self, o: Self) -> Self {
        self.times(o).reduce()
    }

    pub open spec fn double(self) -> Self {
        self.add(self)
    }

    pub open spec fn square(self) -> Self {
        self.mul(self)
    }

    pub open spec fn mul_by_nonres(self) -> Self {
        self.times_v().reduce()
    }

    /// The product with an element of Fq2.
    pub open spec fn scale(self, k: Fq2Value) -> Self {
        self.scaled(k).reduce()
    }

    /// The product with `c0 + c1 * v`.
    pub open spec fn mul_by_01(self, c0: Fq2Value, c1: Fq2Value) -> Self {
        self.mul(Fq6Value { c0, c1, c2: Fq2Value::zero() })
    }

    /// The three cofactors `a0^2 - xi a1 a2`, `xi a2^2 - a0 a1` and
    /// `a1^2 - a0 a2`, whose combination with `self` is the norm.
    pub open spec fn cofactors(self) -> Self {
        Fq6Value {
            c0: self.c0.times(self.c0).minus(self.c1.times(self.c2).times_xi()),
            c1: self.c2.times(self.c2).times_xi().minus(self.c0.times(self.c1)),
            c2: self.c1.times(self.c1).minus(self.c0.times(self.c2)),
        }
    }

    /// The norm down to Fq2: `xi (a1 k2 + a2 k1) + a0 k0` over the cofactors
    /// `k`.
    pub open spec fn norm(self) -> Fq2Value {
        let k = self.cofactors();
        self.c1.times(k.c2).plus(self.c2.times(k.c1)).times_xi().plus(
            self.c0.times(k.c0),
        ).reduce()
    }

    /// The cofactors over the norm.
    pub open spec fn inv(self) -> Self {
        self.cofactors().scaled(self.norm().inv()).reduce()
    }

    /// The power in the field.
    pub open spec fn power(self, n: nat) -> Self
        decreases n,
    {
        if n == 0 {
            Fq6Value::one()
        } else {
            self.mul(self.power((n - 1) as nat))
        }
    }

    /// The `k`-th power of the Frobenius map: coefficient by coefficient, and
    /// then the coefficients of `v` and `v^2` times their tabulated factors.
    pub open spec fn frobenius(self, k: nat) -> Self {
        Fq6Value {
            c0: self.c0.frobenius(k),
            c1: self.c1.frobenius(k).mul(frobenius_coeff_fq6_c1((k % 6) as int)),
            c2: self.c2.frobenius(k).mul(frobenius_coeff_fq6_c2((k % 6) as int)),
        }
    }
}

/// Reducing gives the canonical representative of the same element.
pub proof fn lemma_reduce6(x: Fq6Value)
    ensures
        x.reduce().eqv(x),
        x.reduce().canonical(),
        x.canonical() ==> x.reduce() == x,
{
    lemma_reduce2(x.c0);
    lemma_reduce2(x.c1);
    lemma_reduce2(x.c2);
}

/// Canonical representatives of one element are equal.
pub proof fn lemma_canonical_equal6(a: Fq6Value, b: Fq6Value)
    requires
        a.canonical(),
        b.canonical(),
        a.eqv(b),
    ensures
        a == b,
{
    lemma_canonical_equal2(a.c0, b.c0);
    lemma_canonical_equal2(a.c1, b.c1);
    lemma_canonical_equal2(a.c2, b.c2);
}

/// Sums respect `eqv`.
pub proof fn lemma_eqv_plus6(a: Fq6Value, b: Fq6Value, c: Fq6Value, d: Fq6Value)
    requires
        a.eqv(c),
        b.eqv(d),
    ensures
        a.plus(b).eqv(c.plus(d)),
        a.add(b).eqv(c.plus(d)),
{
    lemma_eqv_plus2(a.c0, b.c0, c.c0, d.c0);
    lemma_eqv_plus2(a.c1, b.c1, c.c1, d.c1);
    lemma_eqv_plus2(a.c2, b.c2, c.c2, d.c2);
}

/// Differences respect `eqv`.
pub proof fn lemma_eqv_minus6(a: Fq6Value, b: Fq6Value, c: Fq6Value, d: Fq6Value)
    requires
        a.eqv(c),
        b.eqv(d),
    ensures
        a.minus(b).eqv(c.minus(d)),
        a.sub(b).eqv(c.minus(d)),
{
    lemma_eqv_minus2(a.c0, b.c0, c.c0, d.c0);
    lemma_eqv_minus2(a.c1, b.c1, c.c1, d.c1);
    lemma_eqv_minus2(a.c2, b.c2, c.c2, d.c2);
}

/// Negation and the product with `v` respect `eqv`.
pub proof fn lemma_eqv_unary6(a: Fq6Value, c: Fq6Value)
    requires
        a.eqv(c),
    ensures
        a.negated().eqv(c.negated()),
        a.neg().eqv(c.negated()),
        a.times_v().eqv(c.times_v()),
        a.mul_by_nonres().eqv(c.times_v()),
{
    lemma_eqv_unary2(a.c0, c.c0);
    lemma_eqv_unary2(a.c1, c.c1);
    lemma_eqv_unary2(a.c2, c.c2);
    lemma_reduce2(a.times_v().c0);
    lemma_reduce2(a.times_v().c1);
    lemma_reduce2(a.times_v().c2);
}

/// Products respect `eqv`.
pub proof fn lemma_eqv_times6(a: Fq6Value, b: Fq6Value, c: Fq6Value, d: Fq6Value)
    requires
        a.eqv(c),
        b.eqv(d),
    ensures
        a.times(b).eqv(c.times(d)),
        a.mul(b).eqv(c.times(d)),
{
    lemma_eqv_times2(a.c0, b.c0, c.c0, d.c0);
    lemma_eqv_times2(a.c0, b.c1, c.c0, d.c1);
    lemma_eqv_times2(a.c0, b.c2, c.c0, d.c2);
    lemma_eqv_times2(a.c1, b.c0, c.c1, d.c0);
    lemma_eqv_times2(a.c1, b.c1, c.c1, d.c1);
    lemma_eqv_times2(a.c1, b.c2, c.c1, d.c2);
    lemma_eqv_times2(a.c2, b.c0, c.c2, d.c0);
    lemma_eqv_times2(a.c2, b.c1, c.c2, d.c1);
    lemma_eqv_times2(a.c2, b.c2, c.c2, d.c2);
    lemma_eqv_plus2(a.c1.times(b.c2), a.c2.times(b.c1), c.c1.times(d.c2), c.c2.times(d.c1));
    lemma_eqv_unary2(
        a.c1.times(b.c2).plus(a.c2.times(b.c1)),
        c.c1.times(d.c2).plus(c.c2.times(d.c1)),
    );
    lemma_eqv_plus2(
        a.c0.times(b.c0),
        a.c1.times(b.c2).plus(a.c2.times(b.c1)).times_xi(),
        c.c0.times(d.c0),
        c.c1.times(d.c2).plus(c.c2.times(d.c1)).times_xi(),
    );
    lemma_eqv_plus2(a.c0.times(b.c1), a.c1.times(b.c0), c.c0.times(d.c1), c.c1.times(d.c0));
    lemma_eqv_unary2(a.c2.times(b.c2), c.c2.times(d.c2));
    lemma_eqv_plus2(
        a.c0.times(b.c1).plus(a.c1.times(b.c0)),
        a.c2.times(b.c2).times_xi(),
        c.c0.times(d.c1).plus(c.c1.times(d.c0)),
        c.c2.times(d.c2).times_xi(),
    );
    lemma_eqv_plus2(a.c0.times(b.c2), a.c1.times(b.c1), c.c0.times(d.c2), c.c1.times(d.c1));
    lemma_eqv_plus2(
        a.c0.times(b.c2).plus(a.c1.times(b.c1)),
        a.c2.times(b.c0),
        c.c0.times(d.c2).plus(c.c1.times(d.c1)),
        c.c2.times(d.c0),
    );
    lemma_reduce6(a.times(b));
}

/// Products distribute over sums and differences, on either side, and
/// commute.
pub proof fn lemma_times_distributes6(a: Fq6Value, b: Fq6Value, c: Fq6Value)
    ensures
        a.plus(b).times(c) == a.times(c).plus(b.times(c)),
        c.times(a.plus(b)) == c.times(a).plus(c.times(b)),
        a.minus(b).times(c) == a.times(c).minus(b.times(c)),
        c.times(a.minus(b)) == c.times(a).minus(c.times(b)),
        a.times(b) == b.times(a),
{
    lemma_times_distributes2(a.c0, b.c0, c.c0);
    lemma_times_distributes2(a.c0, b.c0, c.c1);
    lemma_times_distributes2(a.c0, b.c0, c.c2);
    lemma_times_distributes2(a.c1, b.c1, c.c0);
    lemma_times_distributes2(a.c1, b.c1, c.c1);
    lemma_times_distributes2(a.c1, b.c1, c.c2);
    lemma_times_distributes2(a.c2, b.c2, c.c0);
    lemma_times_distributes2(a.c2, b.c2, c.c1);
    lemma_times_distributes2(a.c2, b.c2, c.c2);
    lemma_times_distributes2(a.c0, b.c1, c.c0);
    lemma_times_distributes2(a.c0, b.c2, c.c0);
    lemma_times_distributes2(a.c1, b.c0, c.c0);
    lemma_times_distributes2(a.c1, b.c2, c.c0);
    lemma_times_distributes2(a.c2, b.c0, c.c0);
    lemma_times_distributes2(a.c2, b.c1, c.c0);
}

/// The squaring formula of Chung and Hasan: from `s0 = a0^2`, `s1 = 2 a0 a1`,
/// `s2 = (a0 - a1 + a2)^2`, `s3 = 2 a1 a2` and `s4 = a2^2` the square is
/// `(xi s3 + s0) + (xi s4 + s1) v + (s1 + s2 + s3 - s0 - s4) v^2`.
#[verifier::rlimit(50)]
pub proof fn lemma_square6(x: Fq6Value)
    ensures
        ({
            let s0 = x.c0.square();
            let s1 = x.c0.mul(x.c1).double();
            let s2 = x.c0.sub(x.c1).add(x.c2).square();
            let s3 = x.c1.mul(x.c2).double();
            let s4 = x.c2.square();
            Fq6Value {
                c0: s3.mul_by_nonres().add(s0),
                c1: s4.mul_by_nonres().add(s1),
                c2: s1.add(s2).add(s3).sub(s0).sub(s4),
            }
        }) == x.square(),
{
    let (a0, a1, a2) = (x.c0, x.c1, x.c2);
    let s0 = a0.square();
    let ab = a0.mul(a1);
    let s1 = ab.double();
    let dd = a0.sub(a1).add(a2);
    let s2 = dd.square();
    let bc = a1.mul(a2);
    let s3 = bc.double();
    let s4 = a2.square();
    let c0 = s3.mul_by_nonres().add(s0);
    let c1 = s4.mul_by_nonres().add(s1);
    let c2 = s1.add(s2).add(s3).sub(s0).sub(s4);
    // the same, unreduced
    let r0 = a0.times(a0);
    let rab = a0.times(a1);
    let r1 = rab.plus(rab);
    let rd = a0.minus(a1).plus(a2);
    let r2 = rd.times(rd);
    let rbc = a1.times(a2);
    let r3 = rbc.plus(rbc);
    let r4 = a2.times(a2);
    lemma_reduce2(r0);
    lemma_reduce2(rab);
    lemma_reduce2(rbc);
    lemma_reduce2(r4);
    lemma_eqv_plus2(ab, ab, rab, rab);
    lemma_eqv_plus2(bc, bc, rbc, rbc);
    lemma_eqv_minus2(a0, a1, a0, a1);
    lemma_eqv_plus2(a0.sub(a1), a2, a0.minus(a1), a2);
    lemma_eqv_times2(dd, dd, rd, rd);
    lemma_eqv_unary2(s3, r3);
    lemma_eqv_unary2(s4, r4);
    lemma_eqv_plus2(s3.mul_by_nonres(), s0, r3.times_xi(), r0);
    lemma_eqv_plus2(s4.mul_by_nonres(), s1, r4.times_xi(), r1);
    lemma_eqv_plus2(s1, s2, r1, r2);
    lemma_eqv_plus2(s1.add(s2), s3, r1.plus(r2), r3);
    lemma_eqv_minus2(s1.add(s2).add(s3), s0, r1.plus(r2).plus(r3), r0);
    lemma_eqv_minus2(s1.add(s2).add(s3).sub(s0), s4, r1.plus(r2).plus(r3).minus(r0), r4);
    // the square of a0 - a1 + a2, written out
    lemma_times_distributes2(a0.minus(a1), a2, rd);
    lemma_times_distributes2(a0, a1, rd);
    lemma_times_distributes2(a0.minus(a1), a2, a0);
    lemma_times_distributes2(a0.minus(a1), a2, a1);
    lemma_times_distributes2(a0.minus(a1), a2, a2);
    lemma_times_distributes2(a0, a1, a0);
    lemma_times_distributes2(a0, a1, a1);
    lemma_times_distributes2(a0, a1, a2);
    lemma_times_distributes2(a1, a2, a0);
    lemma_times_distributes2(a2, a0, a1);
    let want = x.times(x);
    assert(r3.times_xi().plus(r0) == want.c0);
    assert(r4.times_xi().plus(r1) == want.c1);
    assert(r1.plus(r2).plus(r3).minus(r0).minus(r4) == want.c2);
    lemma_reduce6(want);
    lemma_reduce2(s3.mul_by_nonres().plus(s0));
    lemma_reduce2(s4.mul_by_nonres().plus(s1));
    lemma_reduce2(s1.add(s2).add(s3).sub(s0).minus(s4));
    lemma_canonical_equal2(c0, want.c0.reduce());
    lemma_canonical_equal2(c1, want.c1.reduce());
    lemma_canonical_equal2(c2, want.c2.reduce());
}

/// The sparse product with `k0 + k1 v`, from `aa = a0 k0` and `bb = a1 k1`:
/// `(xi ((a1 + a2) k1 - bb) + aa) + ((a0 + a1)(k0 + k1) - aa - bb) v
/// + ((a0 + a2) k0 - aa + bb) v^2`.
#[verifier::rlimit(50)]
pub proof fn lemma_mul_by_01(x: Fq6Value, k0: Fq2Value, k1: Fq2Value)
    ensures
        ({
            let aa = x.c0.mul(k0);
            let bb = x.c1.mul(k1);
            Fq6Value {
                c0: x.c1.add(x.c2).mul(k1).sub(bb).mul_by_nonres().add(aa),
                c1: x.c0.add(x.c1).mul(k0.add(k1)).sub(aa).sub(bb),
                c2: x.c0.add(x.c2).mul(k0).sub(aa).add(bb),
            }
        }) == x.mul_by_01(k0, k1),
{
    let (a0, a1, a2) = (x.c0, x.c1, x.c2);
    let aa = a0.mul(k0);
    let bb = a1.mul(k1);
    let raa = a0.times(k0);
    let rbb = a1.times(k1);
    lemma_reduce2(raa);
    lemma_reduce2(rbb);
    let z = Fq2Value::zero();
    let want = x.times(Fq6Value { c0: k0, c1: k1, c2: z });
    lemma_reduce6(want);
    // c0
    let u0 = a1.add(a2).mul(k1);
    lemma_eqv_plus2(a1, a2, a1, a2);
    lemma_eqv_times2(a1.add(a2), k1, a1.plus(a2), k1);
    lemma_eqv_minus2(u0, bb, a1.plus(a2).times(k1), rbb);
    lemma_eqv_unary2(u0.sub(bb), a1.plus(a2).times(k1).minus(rbb));
    lemma_eqv_plus2(
        u0.sub(bb).mul_by_nonres(),
        aa,
        a1.plus(a2).times(k1).minus(rbb).times_xi(),
        raa,
    );
    lemma_times_distributes2(a1, a2, k1);
    assert(a1.times(z) == z);
    assert(a1.plus(a2).times(k1).minus(rbb).times_xi().plus(raa) == want.c0);
    let c0 = u0.sub(bb).mul_by_nonres().add(aa);
    lemma_reduce2(u0.sub(bb).mul_by_nonres().plus(aa));
    lemma_canonical_equal2(c0, want.c0.reduce());
    // c1
    lemma_cross2(a0, a1, k0, k1);
    assert(a2.times(z) == z);
    assert(a0.times(k1).plus(a1.times(k0)) == want.c1);
    // c2
    let u2 = a0.add(a2).mul(k0);
    lemma_eqv_plus2(a0, a2, a0, a2);
    lemma_eqv_times2(a0.add(a2), k0, a0.plus(a2), k0);
    lemma_eqv_minus2(u2, aa, a0.plus(a2).times(k0), raa);
    lemma_eqv_plus2(u2.sub(aa), bb, a0.plus(a2).times(k0).minus(raa), rbb);
    lemma_times_distributes2(a0, a2, k0);
    assert(a0.times(z) == z);
    assert(a0.plus(a2).times(k0).minus(raa).plus(rbb) == want.c2);
    let c2 = u2.sub(aa).add(bb);
    lemma_reduce2(u2.sub(aa).plus(bb));
    lemma_canonical_equal2(c2, want.c2.reduce());
}

/// The cofactors and the norm, computed with the field operations.
#[verifier::rlimit(50)]
pub proof fn lemma_cofactors(x: Fq6Value)
    ensures
        ({
            let k0 = x.c0.square().sub(x.c1.mul(x.c2).mul_by_nonres());
            let k1 = x.c2.square().mul_by_nonres().sub(x.c0.mul(x.c1));
            let k2 = x.c1.square().sub(x.c0.mul(x.c2));
            &&& Fq6Value { c0: k0, c1: k1, c2: k2 } == x.cofactors().reduce()
            &&& x.c1.mul(k2).add(x.c2.mul(k1)).mul_by_nonres().add(x.c0.mul(k0)) == x.norm()
        }),
{
    let (a0, a1, a2) = (x.c0, x.c1, x.c2);
    let k0 = a0.square().sub(a1.mul(a2).mul_by_nonres());
    let k1 = a2.square().mul_by_nonres().sub(a0.mul(a1));
    let k2 = a1.square().sub(a0.mul(a2));
    let k = x.cofactors();
    lemma_reduce2(a0.times(a0));
    lemma_reduce2(a1.times(a1));
    lemma_reduce2(a2.times(a2));
    lemma_reduce2(a0.times(a1));
    lemma_reduce2(a0.times(a2));
    lemma_reduce2(a1.times(a2));
    lemma_eqv_unary2(a1.mul(a2), a1.times(a2));
    lemma_eqv_unary2(a2.square(), a2.times(a2));
    lemma_eqv_minus2(a0.square(), a1.mul(a2).mul_by_nonres(), a0.times(a0), a1.times(a2).times_xi());
    lemma_eqv_minus2(a2.square().mul_by_nonres(), a0.mul(a1), a2.times(a2).times_xi(), a0.times(a1));
    lemma_eqv_minus2(a1.square(), a0.mul(a2), a1.times(a1), a0.times(a2));
    lemma_reduce6(k);
    lemma_reduce2(a0.square().minus(a1.mul(a2).mul_by_nonres()));
    lemma_reduce2(a2.square().mul_by_nonres().minus(a0.mul(a1)));
    lemma_reduce2(a1.square().minus(a0.mul(a2)));
    lemma_canonical_equal2(k0, k.c0.reduce());
    lemma_canonical_equal2(k1, k.c1.reduce());
    lemma_canonical_equal2(k2, k.c2.reduce());
    // the norm
    lemma_eqv_times2(a1, k2, a1, k.c2);
    lemma_eqv_times2(a2, k1, a2, k.c1);
    lemma_eqv_times2(a0, k0, a0, k.c0);
    lemma_eqv_plus2(a1.mul(k2), a2.mul(k1), a1.times(k.c2), a2.times(k.c1));
    lemma_eqv_unary2(a1.mul(k2).add(a2.mul(k1)), a1.times(k.c2).plus(a2.times(k.c1)));
    lemma_eqv_plus2(
        a1.mul(k2).add(a2.mul(k1)).mul_by_nonres(),
        a0.mul(k0),
        a1.times(k.c2).plus(a2.times(k.c1)).times_xi(),
        a0.times(k.c0),
    );
    let raw = a1.times(k.c2).plus(a2.times(k.c1)).times_xi().plus(a0.times(k.c0));
    lemma_reduce2(raw);
    lemma_reduce2(a1.mul(k2).add(a2.mul(k1)).mul_by_nonres().plus(a0.mul(k0)));
    lemma_canonical_equal2(
        a1.mul(k2).add(a2.mul(k1)).mul_by_nonres().add(a0.mul(k0)),
        raw.reduce(),
    );
}

/// Scaling the reduced cofactors gives the inverse.
pub proof fn lemma_inv6(x: Fq6Value, t: Fq2Value)
    requires
        t == x.norm().inv(),
    ensures
        ({
            let k = x.cofactors().reduce();
            Fq6Value { c0: k.c0.mul(t), c1: k.c1.mul(t), c2: k.c2.mul(t) }
        }) == x.inv(),
{
    let k = x.cofactors();
    lemma_reduce6(k);
    lemma_eqv_times2(k.c0.reduce(), t, k.c0, t);
    lemma_eqv_times2(k.c1.reduce(), t, k.c1, t);
    lemma_eqv_times2(k.c2.reduce(), t, k.c2, t);
    lemma_reduce6(k.scaled(t));
    lemma_reduce2(k.c0.reduce().times(t));
    lemma_reduce2(k.c1.reduce().times(t));
    lemma_reduce2(k.c2.reduce().times(t));
    lemma_canonical_equal2(k.c0.reduce().mul(t), k.c0.times(t).reduce());
    lemma_canonical_equal2(k.c1.reduce().mul(t), k.c1.times(t).reduce());
    lemma_canonical_equal2(k.c2.reduce().mul(t), k.c2.times(t).reduce());
}

/// `((p + q) + (r + s)) - p - s = q + r`.
pub proof fn lemma_cancel6(p: Fq6Value, q: Fq6Value, r: Fq6Value, s: Fq6Value)
    ensures
        p.plus(q).plus(r.plus(s)).minus(p).minus(s) == q.plus(r),
{
}

/// `(a + b)(c + e) - ac - be = ae + bc`, without reduction.
pub proof fn lemma_cross_raw6(a: Fq6Value, b: Fq6Value, c: Fq6Value, e: Fq6Value)
    ensures
        a.plus(b).times(c.plus(e)).minus(a.times(c)).minus(b.times(e)) == a.times(e).plus(
            b.times(c),
        ),
{
    lemma_times_distributes6(a, b, c.plus(e));
    lemma_times_distributes6(c, e, a);
    lemma_times_distributes6(c, e, b);
    lemma_cancel6(a.times(c), a.times(e), b.times(c), b.times(e));
}

/// `(a + b)(c + e) - ac - be = ae + bc`, in the field.
pub proof fn lemma_cross6(a: Fq6Value, b: Fq6Value, c: Fq6Value, e: Fq6Value)
    ensures
        a.add(b).mul(c.add(e)).sub(a.mul(c)).sub(b.mul(e)) == a.times(e).plus(
            b.times(c),
        ).reduce(),
{
    let s = a.add(b);
    let u = c.add(e);
    let m = s.mul(u);
    let d = m.sub(a.mul(c));
    let r = d.sub(b.mul(e));
    lemma_reduce6(a.plus(b));
    lemma_reduce6(c.plus(e));
    lemma_eqv_times6(s, u, a.plus(b), c.plus(e));
    lemma_reduce6(a.times(c));
    lemma_reduce6(b.times(e));
    lemma_eqv_minus6(m, a.mul(c), a.plus(b).times(c.plus(e)), a.times(c));
    lemma_eqv_minus6(d, b.mul(e), a.plus(b).times(c.plus(e)).minus(a.times(c)), b.times(e));
    lemma_cross_raw6(a, b, c, e);
    let want = a.times(e).plus(b.times(c));
    lemma_reduce6(want);
    lemma_reduce6(d.minus(b.mul(e)));
    lemma_canonical_equal6(r, want.reduce());
}

/// Products associate.
#[verifier::rlimit(50)]
pub proof fn lemma_times_associates6(a: Fq6Value, b: Fq6Value, c: Fq6Value)
    ensures
        a.times(b).times(c) == a.times(b.times(c)),
{
    lemma_times_associates2(a.c0, b.c0, c.c0);
    lemma_times_associates2(a.c0, b.c0, c.c1);
    lemma_times_associates2(a.c0, b.c0, c.c2);
    lemma_times_associates2(a.c0, b.c1, c.c0);
    lemma_times_associates2(a.c0, b.c1, c.c1);
    lemma_times_associates2(a.c0, b.c1, c.c2);
    lemma_times_associates2(a.c0, b.c2, c.c0);
    lemma_times_associates2(a.c0, b.c2, c.c1);
    lemma_times_associates2(a.c0, b.c2, c.c2);
    lemma_times_associates2(a.c1, b.c0, c.c0);
    lemma_times_associates2(a.c1, b.c0, c.c1);
    lemma_times_associates2(a.c1, b.c0, c.c2);
    lemma_times_associates2(a.c1, b.c1, c.c0);
    lemma_times_associates2(a.c1, b.c1, c.c1);
    lemma_times_associates2(a.c1, b.c1, c.c2);
    lemma_times_associates2(a.c1, b.c2, c.c0);
    lemma_times_associates2(a.c1, b.c2, c.c1);
    lemma_times_associates2(a.c1, b.c2, c.c2);
    lemma_times_associates2(a.c2, b.c0, c.c0);
    lemma_times_associates2(a.c2, b.c0, c.c1);
    lemma_times_associates2(a.c2, b.c0, c.c2);
    lemma_times_associates2(a.c2, b.c1, c.c0);
    lemma_times_associates2(a.c2, b.c1, c.c1);
    lemma_times_associates2(a.c2, b.c1, c.c2);
    lemma_times_associates2(a.c2, b.c2, c.c0);
    lemma_times_associates2(a.c2, b.c2, c.c1);
    lemma_times_associates2(a.c2, b.c2, c.c2);
    lemma_times_distributes2(a.c0.times(b.c0), a.c1.times(b.c2).plus(a.c2.times(b.c1)).times_xi(), c.c0);
    lemma_times_xi2(a.c1.times(b.c2).plus(a.c2.times(b.c1)), c.c0);
    lemma_times_distributes2(a.c1.times(b.c2), a.c2.times(b.c1), c.c0);
    lemma_times_distributes2(a.c0.times(b.c1).plus(a.c1.times(b.c0)), a.c2.times(b.c2).times_xi(), c.c0);
    lemma_times_distributes2(a.c0.times(b.c1), a.c1.times(b.c0), c.c0);
    lemma_times_xi2(a.c2.times(b.c2), c.c0);
    lemma_times_distributes2(a.c0.times(b.c2).plus(a.c1.times(b.c1)), a.c2.times(b.c0), c.c0);
    lemma_times_distributes2(a.c0.times(b.c2), a.c1.times(b.c1), c.c0);
    lemma_times_distributes2(a.c0.times(b.c0), a.c1.times(b.c2).plus(a.c2.times(b.c1)).times_xi(), c.c1);
    lemma_times_xi2(a.c1.times(b.c2).plus(a.c2.times(b.c1)), c.c1);
    lemma_times_distributes2(a.c1.times(b.c2), a.c2.times(b.c1), c.c1);
    lemma_times_distributes2(a.c0.times(b.c1).plus(a.c1.times(b.c0)), a.c2.times(b.c2).times_xi(), c.c1);
    lemma_times_distributes2(a.c0.times(b.c1), a.c1.times(b.c0), c.c1);
    lemma_times_xi2(a.c2.times(b.c2), c.c1);
    lemma_times_distributes2(a.c0.times(b.c2).plus(a.c1.times(b.c1)), a.c2.times(b.c0), c.c1);
    lemma_times_distributes2(a.c0.times(b.c2), a.c1.times(b.c1), c.c1);
    lemma_times_distributes2(a.c0.times(b.c0), a.c1.times(b.c2).plus(a.c2.times(b.c1)).times_xi(), c.c2);
    lemma_times_xi2(a.c1.times(b.c2).plus(a.c2.times(b.c1)), c.c2);
    lemma_times_distributes2(a.c1.times(b.c2), a.c2.times(b.c1), c.c2);
    lemma_times_distributes2(a.c0.times(b.c1).plus(a.c1.times(b.c0)), a.c2.times(b.c2).times_xi(), c.c2);
    lemma_times_distributes2(a.c0.times(b.c1), a.c1.times(b.c0), c.c2);
    lemma_times_xi2(a.c2.times(b.c2), c.c2);
    lemma_times_distributes2(a.c0.times(b.c2).plus(a.c1.times(b.c1)), a.c2.times(b.c0), c.c2);
    lemma_times_distributes2(a.c0.times(b.c2), a.c1.times(b.c1), c.c2);
    lemma_times_distributes2(b.c0.times(c.c0), b.c1.times(c.c2).plus(b.c2.times(c.c1)).times_xi(), a.c0);
    lemma_times_xi2(a.c0, b.c1.times(c.c2).plus(b.c2.times(c.c1)));
    lemma_times_distributes2(b.c1.times(c.c2), b.c2.times(c.c1), a.c0);
    lemma_times_distributes2(b.c0.times(c.c1).plus(b.c1.times(c.c0)), b.c2.times(c.c2).times_xi(), a.c0);
    lemma_times_distributes2(b.c0.times(c.c1), b.c1.times(c.c0), a.c0);
    lemma_times_xi2(a.c0, b.c2.times(c.c2));
    lemma_times_distributes2(b.c0.times(c.c2).plus(b.c1.times(c.c1)), b.c2.times(c.c0), a.c0);
    lemma_times_distributes2(b.c0.times(c.c2), b.c1.times(c.c1), a.c0);
    lemma_times_distributes2(b.c0.times(c.c0), b.c1.times(c.c2).plus(b.c2.times(c.c1)).times_xi(), a.c1);
    lemma_times_xi2(a.c1, b.c1.times(c.c2).plus(b.c2.times(c.c1)));
    lemma_times_distributes2(b.c1.times(c.c2), b.c2.times(c.c1), a.c1);
    lemma_times_distributes2(b.c0.times(c.c1).plus(b.c1.times(c.c0)), b.c2.times(c.c2).times_xi(), a.c1);
    lemma_times_distributes2(b.c0.times(c.c1), b.c1.times(c.c0), a.c1);
    lemma_times_xi2(a.c1, b.c2.times(c.c2));
    lemma_times_distributes2(b.c0.times(c.c2).plus(b.c1.times(c.c1)), b.c2.times(c.c0), a.c1);
    lemma_times_distributes2(b.c0.times(c.c2), b.c1.times(c.c1), a.c1);
    lemma_times_distributes2(b.c0.times(c.c0), b.c1.times(c.c2).plus(b.c2.times(c.c1)).times_xi(), a.c2);
    lemma_times_xi2(a.c2, b.c1.times(c.c2).plus(b.c2.times(c.c1)));
    lemma_times_distributes2(b.c1.times(c.c2), b.c2.times(c.c1), a.c2);
    lemma_times_distributes2(b.c0.times(c.c1).plus(b.c1.times(c.c0)), b.c2.times(c.c2).times_xi(), a.c2);
    lemma_times_distributes2(b.c0.times(c.c1), b.c1.times(c.c0), a.c2);
    lemma_times_xi2(a.c2, b.c2.times(c.c2));
    lemma_times_distributes2(b.c0.times(c.c2).plus(b.c1.times(c.c1)), b.c2.times(c.c0), a.c2);
    lemma_times_distributes2(b.c0.times(c.c2), b.c1.times(c.c1), a.c2);
}

/// One is neutral, and zero absorbs.
pub proof fn lemma_times_unit6(a: Fq6Value)
    ensures
        a.times(Fq6Value::one()) == a,
        Fq6Value::one().times(a) == a,
        a.times(Fq6Value::zero()) == Fq6Value::zero(),
        Fq6Value::zero().times(a) == Fq6Value::zero(),
{
    lemma_times_associates2(a.c0, a.c0, a.c0);
    lemma_times_associates2(a.c1, a.c0, a.c0);
    lemma_times_associates2(a.c2, a.c0, a.c0);
}

/// The cofactors of an element times the element: the norm in the first
/// coefficient, and zero in the others, without reduction.
#[verifier::rlimit(50)]
pub proof fn lemma_cofactors_product(x: Fq6Value)
    ensures
        ({
            let k = x.cofactors();
            let n = x.c1.times(k.c2).plus(x.c2.times(k.c1)).times_xi().plus(x.c0.times(k.c0));
            x.times(k) == (Fq6Value { c0: n, c1: Fq2Value::zero(), c2: Fq2Value::zero() })
        }),
{
    let (a0, a1, a2) = (x.c0, x.c1, x.c2);
    let k = x.cofactors();
    // the products with the cofactors, taken apart
    lemma_times_distributes2(a0.times(a0), a1.times(a2).times_xi(), a1);
    lemma_times_distributes2(a0.times(a0), a1.times(a2).times_xi(), a2);
    lemma_times_distributes2(a2.times(a2).times_xi(), a0.times(a1), a0);
    lemma_times_distributes2(a2.times(a2).times_xi(), a0.times(a1), a1);
    lemma_times_distributes2(a1.times(a1), a0.times(a2), a0);
    lemma_times_distributes2(a1.times(a1), a0.times(a2), a2);
    lemma_times_xi2(a1, a1.times(a2));
    lemma_times_xi2(a2, a1.times(a2));
    lemma_times_xi2(a0, a2.times(a2));
    lemma_times_xi2(a1, a2.times(a2));
    // the products of three coefficients, in one order
    lemma_times_associates2(a0, a0, a1);
    lemma_times_distributes2(a0.times(a0), a1, a1);
    lemma_times_associates2(a0, a0, a2);
    lemma_times_distributes2(a0.times(a0), a2, a2);
    lemma_times_associates2(a1, a1, a2);
    lemma_times_distributes2(a1.times(a1), a2, a2);
    lemma_times_associates2(a1, a1, a0);
    lemma_times_distributes2(a1.times(a1), a0, a0);
    lemma_times_associates2(a0, a2, a2);
    lemma_times_distributes2(a0.times(a2), a2, a2);
    lemma_times_associates2(a1, a2, a2);
    lemma_times_distributes2(a1.times(a2), a2, a2);
    lemma_times_associates2(a1, a0, a1);
    lemma_times_distributes2(a0, a1, a1);
    lemma_times_associates2(a2, a0, a2);
    lemma_times_distributes2(a0, a2, a2);
    lemma_times_associates2(a2, a1, a2);
    lemma_times_distributes2(a1, a2, a2);
    lemma_times_associates2(a1, a2, a1);
    lemma_times_associates2(a2, a1, a1);
    lemma_times_associates2(a2, a0, a0);
    lemma_times_associates2(a1, a0, a0);
    lemma_times_distributes2(a0.times(a1), a0, a0);
    lemma_times_distributes2(a0.times(a2), a0, a0);
    lemma_times_distributes2(a1.times(a2), a1, a1);
    lemma_times_distributes2(a0.times(a1), a1, a1);
    assert(a0.times(k.c1).plus(a1.times(k.c0)).plus(a2.times(k.c2).times_xi())
        == Fq2Value::zero());
    assert(a0.times(k.c2).plus(a1.times(k.c1)).plus(a2.times(k.c0)) == Fq2Value::zero());
}

/// An element of Fq6 whose norm is not zero times its inverse is one.
pub proof fn lemma_inverse6(x: Fq6Value)
    requires
        x.norm() != Fq2Value::zero(),
    ensures
        x.mul(x.inv()) == Fq6Value::one(),
{
    let k = x.cofactors();
    let t = x.norm().inv();
    let raw = x.c1.times(k.c2).plus(x.c2.times(k.c1)).times_xi().plus(x.c0.times(k.c0));
    lemma_reduce2(raw);
    crate::model::quadratic::lemma_inverse2(x.norm());
    // x (k t) = (x k) t
    lemma_reduce6(k.scaled(t));
    lemma_eqv_times6(x, x.inv(), x, k.scaled(t));
    lemma_scaled_times6(x, k, t);
    lemma_cofactors_product(x);
    let z = Fq2Value::zero();
    lemma_times_associates2(z, z, t);
    assert(x.times(k).scaled(t) == (Fq6Value { c0: raw.times(t), c1: z, c2: z }));
    lemma_eqv_times2(raw, t, x.norm(), t);
    lemma_reduce2(x.norm().times(t));
    lemma_reduce6(x.times(x.inv()));
    vstd::arithmetic::div_mod::lemma_small_mod(0, crate::model::base::q() as nat);
    vstd::arithmetic::div_mod::lemma_small_mod(1, crate::model::base::q() as nat);
    lemma_canonical_equal6(x.mul(x.inv()), Fq6Value::one());
}

/// The product with a multiple is the multiple of the product.
pub proof fn lemma_scaled_times6(x: Fq6Value, k: Fq6Value, t: Fq2Value)
    ensures
        x.times(k.scaled(t)) == x.times(k).scaled(t),
{
    let (a0, a1, a2) = (x.c0, x.c1, x.c2);
    lemma_times_associates2(a0, k.c0, t);
    lemma_times_associates2(a0, k.c1, t);
    lemma_times_associates2(a0, k.c2, t);
    lemma_times_associates2(a1, k.c0, t);
    lemma_times_associates2(a1, k.c1, t);
    lemma_times_associates2(a1, k.c2, t);
    lemma_times_associates2(a2, k.c0, t);
    lemma_times_associates2(a2, k.c1, t);
    lemma_times_associates2(a2, k.c2, t);
    lemma_times_distributes2(a1.times(k.c2), a2.times(k.c1), t);
    lemma_times_xi2(a1.times(k.c2).plus(a2.times(k.c1)), t);
    lemma_times_distributes2(
        a0.times(k.c0),
        a1.times(k.c2).plus(a2.times(k.c1)).times_xi(),
        t,
    );
    lemma_times_distributes2(a0.times(k.c1), a1.times(k.c0), t);
    lemma_times_xi2(a2.times(k.c2), t);
    lemma_times_distributes2(
        a0.times(k.c1).plus(a1.times(k.c0)),
        a2.times(k.c2).times_xi(),
        t,
    );
    lemma_times_distributes2(a0.times(k.c2), a1.times(k.c1), t);
    lemma_times_distributes2(a0.times(k.c2).plus(a1.times(k.c1)), a2.times(k.c0), t);
}

/// The laws of the product in the field.
pub proof fn lemma_mul_laws6(a: Fq6Value, b: Fq6Value, c: Fq6Value)
    ensures
        a.mul(b).mul(c) == a.mul(b.mul(c)),
        a.mul(b) == b.mul(a),
        a.canonical() ==> a.mul(Fq6Value::one()) == a && Fq6Value::one().mul(a) == a,
        a.mul(b).canonical(),
{
    lemma_reduce6(a.times(b));
    lemma_reduce6(b.times(c));
    lemma_eqv_times6(a.mul(b), c, a.times(b), c);
    lemma_eqv_times6(a, b.mul(c), a, b.times(c));
    lemma_times_associates6(a, b, c);
    lemma_reduce6(a.mul(b).times(c));
    lemma_reduce6(a.times(b.mul(c)));
    lemma_canonical_equal6(a.mul(b).mul(c), a.mul(b.mul(c)));
    lemma_times_distributes6(a, b, c);
    lemma_times_unit6(a);
    lemma_reduce6(a);
}

} // verus!
