//! The quadratic extension Fq2 = Fq[u]/(u^2 + 1) as pairs of integers.
//!
//! The operations come in two layers. `plus`, `minus`, `negated`, `times`,
//! `times_xi` and `conj` work in Z[u]/(u^2 + 1), without reduction. The field
//! operations reduce what those return modulo `q`.

use crate::model::base::{
    canonical, congruent, fq_inv, lemma_canonical_equal, lemma_congruent_linear,
    lemma_congruent_mul, lemma_reduce_congruent, q,
};
use vstd::arithmetic::mul::{
    lemma_mul_is_commutative, lemma_mul_is_distributive_add,
    lemma_mul_is_distributive_add_other_way,
};
use vstd::prelude::*;

verus! {

/// `c0 + c1 * u`.
pub struct Fq2Value {
    pub c0: int,
    pub c1: int,
}

impl Fq2Value {
    pub open spec fn zero() -> Self {
        Fq2Value { c0: 0, c1: 0 }
    }

    pub open spec fn one() -> Self {
        Fq2Value { c0: 1, c1: 0 }
    }

    /// The non-residue `xi = 9 + u` that the sextic extension is built on.
    pub open spec fn xi() -> Self {
        Fq2Value { c0: 9, c1: 1 }
    }

    /// Both coefficients are canonical.
    pub open spec fn canonical(self) -> bool {
        canonical(self.c0) && canonical(self.c1)
    }

    /// The two denote the same element of Fq2.
    pub open spec fn eqv(self, o: Self) -> bool {
        congruent(self.c0, o.c0) && congruent(self.c1, o.c1)
    }

    /// The canonical representative.
    pub open spec fn reduce(self) -> Self {
        Fq2Value { c0: self.c0 % q(), c1: self.c1 % q() }
    }

    pub open spec fn plus(self, o: Self) -> Self {
        Fq2Value { c0: self.c0 + o.c0, c1: self.c1 + o.c1 }
    }

    pub open spec fn minus(self, o: Self) -> Self {
        Fq2Value { c0: self.c0 - o.c0, c1: self.c1 - o.c1 }
    }

    pub open spec fn negated(self) -> Self {
        Fq2Value { c0: -self.c0, c1: -self.c1 }
    }

    /// `(a + b u)(c + d u) = (ac - bd) + (ad + bc) u`.
    pub open spec fn times(self, o: Self) -> Self {
        Fq2Value { c0: self.c0 * o.c0 - self.c1 * o.c1, c1: self.c0 * o.c1 + self.c1 * o.c0 }
    }

    /// `(a + b u)(9 + u) = (9a - b) + (a + 9b) u`.
    pub open spec fn times_xi(self) -> Self {
        Fq2Value { c0: 9 * self.c0 - self.c1, c1: self.c0 + 9 * self.c1 }
    }

    /// `a - b u`.
    pub open spec fn conj(self) -> Self {
        Fq2Value { c0: self.c0, c1: -self.c1 }
    }

    /// Multiplication of both coefficients by an integer.
    pub open spec fn scaled(self, k: int) -> Self {
        Fq2Value { c0: self.c0 * k, c1: self.c1 * k }
    }

    pub open spec fn add(self, o: Self) -> Self {
        self.plus(o).reduce()
    }

    pub open spec fn sub(self, o: Self) -> Self {
        self.minus(o).reduce()
    }

    pub open spec fn neg(self) -> Self {
        self.negated().reduce()
    }

    pub open spec fn mul(self, o: Self) -> Self {
        self.times(o).reduce()
    }

    pub open spec fn double(self) -> Self {
        self.add(self)
    }

    pub open spec fn square(self) -> Self {
        self.mul(self)
    }

    pub open spec fn mul_by_nonres(self) -> Self {
        self.times_xi().reduce()
    }

    pub open spec fn conjugate(self) -> Self {
        self.conj().reduce()
    }

    /// Multiplication by an element of Fq.
    pub open spec fn scale(self, k: int) -> Self {
        self.scaled(k).reduce()
    }

    /// The norm down to Fq: `a^2 + b^2`.
    pub open spec fn norm(self) -> int {
        (self.c0 * self.c0 + self.c1 * self.c1) % q()
    }

    /// The inverse: the conjugate over the norm, with Fermat's inverse of the
    /// norm.
    pub open spec fn inv(self) -> Self {
        self.conj().scaled(fq_inv(self.norm())).reduce()
    }

    /// The power in the field.
    pub open spec fn power(self, n: nat) -> Self
        decreases n,
    {
        if n == 0 {
            Fq2Value::one()
        } else {
            self.mul(self.power((n - 1) as nat))
        }
    }

    /// The `k`-th power of the Frobenius map: the identity for even `k`, the
    /// conjugation for odd `k`.
    pub open spec fn frobenius(self, k: nat) -> Self {
        if k % 2 == 0 {
            self.reduce()
        } else {
            self.conjugate()
        }
    }
}

/// Reducing gives the canonical representative of the same element.
pub proof fn lemma_reduce2(x: Fq2Value)
    ensures
        x.reduce().eqv(x),
        x.reduce().canonical(),
        x.canonical() ==> x.reduce() == x,
{
    lemma_reduce_congruent(x.c0);
    lemma_reduce_congruent(x.c1);
    if x.canonical() {
        lemma_canonical_equal(x.c0 % q(), x.c0);
        lemma_canonical_equal(x.c1 % q(), x.c1);
    }
}

/// Canonical representatives of one element are equal.
pub proof fn lemma_canonical_equal2(a: Fq2Value, b: Fq2Value)
    requires
        a.canonical(),
        b.canonical(),
        a.eqv(b),
    ensures
        a == b,
{
    lemma_canonical_equal(a.c0, b.c0);
    lemma_canonical_equal(a.c1, b.c1);
}

/// Sums respect `eqv`.
pub proof fn lemma_eqv_plus2(a: Fq2Value, b: Fq2Value, c: Fq2Value, d: Fq2Value)
    requires
        a.eqv(c),
        b.eqv(d),
    ensures
        a.plus(b).eqv(c.plus(d)),
        a.add(b).eqv(c.plus(d)),
{
    lemma_congruent_linear(1, a.c0, 1, b.c0, c.c0, d.c0);
    lemma_congruent_linear(1, a.c1, 1, b.c1, c.c1, d.c1);
}

/// Differences respect `eqv`.
pub proof fn lemma_eqv_minus2(a: Fq2Value, b: Fq2Value, c: Fq2Value, d: Fq2Value)
    requires
        a.eqv(c),
        b.eqv(d),
    ensures
        a.minus(b).eqv(c.minus(d)),
        a.sub(b).eqv(c.minus(d)),
{
    lemma_congruent_linear(1, a.c0, -1, b.c0, c.c0, d.c0);
    lemma_congruent_linear(1, a.c1, -1, b.c1, c.c1, d.c1);
}

/// Negation, conjugation and the product with `xi` respect `eqv`.
pub proof fn lemma_eqv_unary2(a: Fq2Value, c: Fq2Value)
    requires
        a.eqv(c),
    ensures
        a.negated().eqv(c.negated()),
        a.neg().eqv(c.negated()),
        a.conj().eqv(c.conj()),
        a.conjugate().eqv(c.conj()),
        a.times_xi().eqv(c.times_xi()),
        a.mul_by_nonres().eqv(c.times_xi()),
{
    lemma_congruent_linear(-1, a.c0, 0, a.c1, c.c0, c.c1);
    lemma_congruent_linear(0, a.c0, -1, a.c1, c.c0, c.c1);
    lemma_congruent_linear(1, a.c0, 0, a.c1, c.c0, c.c1);
    lemma_congruent_linear(9, a.c0, -1, a.c1, c.c0, c.c1);
    lemma_congruent_linear(1, a.c0, 9, a.c1, c.c0, c.c1);
}

/// Products respect `eqv`.
pub proof fn lemma_eqv_times2(a: Fq2Value, b: Fq2Value, c: Fq2Value, d: Fq2Value)
    requires
        a.eqv(c),
        b.eqv(d),
    ensures
        a.times(b).eqv(c.times(d)),
        a.mul(b).eqv(c.times(d)),
{
    lemma_congruent_mul(a.c0, b.c0, c.c0, d.c0);
    lemma_congruent_mul(a.c1, b.c1, c.c1, d.c1);
    lemma_congruent_mul(a.c0, b.c1, c.c0, d.c1);
    lemma_congruent_mul(a.c1, b.c0, c.c1, d.c0);
    lemma_congruent_linear(1, a.c0 * b.c0, -1, a.c1 * b.c1, c.c0 * d.c0, c.c1 * d.c1);
    lemma_congruent_linear(1, a.c0 * b.c1, 1, a.c1 * b.c0, c.c0 * d.c1, c.c1 * d.c0);
}

/// Products distribute over sums, on either side, and commute.
pub proof fn lemma_times_distributes2(a: Fq2Value, b: Fq2Value, c: Fq2Value)
    ensures
        a.plus(b).times(c) == a.times(c).plus(b.times(c)),
        c.times(a.plus(b)) == c.times(a).plus(c.times(b)),
        a.minus(b).times(c) == a.times(c).minus(b.times(c)),
        c.times(a.minus(b)) == c.times(a).minus(c.times(b)),
        a.times(b) == b.times(a),
{
    lemma_mul_is_distributive_add_other_way(c.c0, a.c0, b.c0);
    lemma_mul_is_distributive_add_other_way(c.c1, a.c1, b.c1);
    lemma_mul_is_distributive_add_other_way(c.c1, a.c0, b.c0);
    lemma_mul_is_distributive_add_other_way(c.c0, a.c1, b.c1);
    lemma_mul_is_distributive_add(c.c0, a.c0, b.c0);
    lemma_mul_is_distributive_add(c.c1, a.c1, b.c1);
    lemma_mul_is_distributive_add(c.c1, a.c0, b.c0);
    lemma_mul_is_distributive_add(c.c0, a.c1, b.c1);
    vstd::arithmetic::mul::lemma_mul_is_distributive_sub_other_way(c.c0, a.c0, b.c0);
    vstd::arithmetic::mul::lemma_mul_is_distributive_sub_other_way(c.c1, a.c1, b.c1);
    vstd::arithmetic::mul::lemma_mul_is_distributive_sub_other_way(c.c1, a.c0, b.c0);
    vstd::arithmetic::mul::lemma_mul_is_distributive_sub_other_way(c.c0, a.c1, b.c1);
    vstd::arithmetic::mul::lemma_mul_is_distributive_sub(c.c0, a.c0, b.c0);
    vstd::arithmetic::mul::lemma_mul_is_distributive_sub(c.c1, a.c1, b.c1);
    vstd::arithmetic::mul::lemma_mul_is_distributive_sub(c.c1, a.c0, b.c0);
    vstd::arithmetic::mul::lemma_mul_is_distributive_sub(c.c0, a.c1, b.c1);
    lemma_mul_is_commutative(a.c0, b.c0);
    lemma_mul_is_commutative(a.c1, b.c1);
    lemma_mul_is_commutative(a.c0, b.c1);
    lemma_mul_is_commutative(a.c1, b.c0);
}

/// The product with `xi` is the product with the element `9 + u`, and goes
/// through sums, differences and products.
pub proof fn lemma_times_xi2(a: Fq2Value, b: Fq2Value)
    ensures
        a.times_xi() == a.times(Fq2Value::xi()),
        a.plus(b).times_xi() == a.times_xi().plus(b.times_xi()),
        a.minus(b).times_xi() == a.times_xi().minus(b.times_xi()),
        a.times(b).times_xi() == a.times(b.times_xi()),
        a.times(b).times_xi() == a.times_xi().times(b),
{
    lemma_mul_is_commutative(a.c0, 9);
    lemma_mul_is_commutative(a.c1, 9);
    lemma_mul_is_distributive_add(a.c0, 9 * b.c0, -b.c1);
    lemma_mul_is_distributive_add(a.c1, b.c0, 9 * b.c1);
    lemma_mul_is_distributive_add(a.c0, b.c0, 9 * b.c1);
    lemma_mul_is_distributive_add(a.c1, 9 * b.c0, -b.c1);
    vstd::arithmetic::mul::lemma_mul_is_associative(a.c0, 9, b.c0);
    vstd::arithmetic::mul::lemma_mul_is_associative(a.c0, 9, b.c1);
    vstd::arithmetic::mul::lemma_mul_is_associative(a.c1, 9, b.c0);
    vstd::arithmetic::mul::lemma_mul_is_associative(a.c1, 9, b.c1);
    vstd::arithmetic::mul::lemma_mul_unary_negation(a.c0, b.c1);
    vstd::arithmetic::mul::lemma_mul_unary_negation(a.c1, b.c1);
    lemma_mul_is_distributive_add_other_way(b.c0, 9 * a.c0, -a.c1);
    lemma_mul_is_distributive_add_other_way(b.c1, a.c0, 9 * a.c1);
    lemma_mul_is_distributive_add_other_way(b.c1, 9 * a.c0, -a.c1);
    lemma_mul_is_distributive_add_other_way(b.c0, a.c0, 9 * a.c1);
    vstd::arithmetic::mul::lemma_mul_unary_negation(a.c1, b.c0);
    vstd::arithmetic::mul::lemma_mul_is_associative(9, a.c0, b.c0);
    vstd::arithmetic::mul::lemma_mul_is_associative(9, a.c0, b.c1);
    vstd::arithmetic::mul::lemma_mul_is_associative(9, a.c1, b.c0);
    vstd::arithmetic::mul::lemma_mul_is_associative(9, a.c1, b.c1);
}

/// `(a + b)(c + e) - ac - be = ae + bc`, in the field.
pub proof fn lemma_cross2(a: Fq2Value, b: Fq2Value, c: Fq2Value, e: Fq2Value)
    ensures
        a.add(b).mul(c.add(e)).sub(a.mul(c)).sub(b.mul(e)) == a.times(e).plus(
            b.times(c),
        ).reduce(),
{
    let s = a.add(b);
    let u = c.add(e);
    let m = s.mul(u);
    let d = m.sub(a.mul(c));
    let r = d.sub(b.mul(e));
    lemma_reduce2(a.plus(b));
    lemma_reduce2(c.plus(e));
    lemma_eqv_times2(s, u, a.plus(b), c.plus(e));
    lemma_reduce2(a.times(c));
    lemma_reduce2(b.times(e));
    lemma_eqv_minus2(m, a.mul(c), a.plus(b).times(c.plus(e)), a.times(c));
    lemma_eqv_minus2(d, b.mul(e), a.plus(b).times(c.plus(e)).minus(a.times(c)), b.times(e));
    lemma_times_distributes2(a, b, c.plus(e));
    lemma_times_distributes2(c, e, a);
    lemma_times_distributes2(c, e, b);
    let want = a.times(e).plus(b.times(c));
    assert(a.plus(b).times(c.plus(e)).minus(a.times(c)).minus(b.times(e)) == want);
    lemma_reduce2(want);
    lemma_reduce2(d.minus(b.mul(e)));
    lemma_canonical_equal2(r, want.reduce());
}

/// The norm of a canonical element is zero only for zero.
pub proof fn lemma_norm_zero2(x: Fq2Value)
    requires
        x.canonical(),
    ensures
        x.norm() == 0 <==> x == Fq2Value::zero(),
{
    if x.norm() == 0 {
        crate::model::base::lemma_sum_of_squares(x.c0, x.c1);
        vstd::arithmetic::div_mod::lemma_small_mod(x.c0 as nat, q() as nat);
        vstd::arithmetic::div_mod::lemma_small_mod(x.c1 as nat, q() as nat);
    }
    if x == Fq2Value::zero() {
        assert(0int * 0int == 0);
        vstd::arithmetic::div_mod::lemma_small_mod(0, q() as nat);
    }
}

/// An element of Fq2 other than zero times its inverse is one.
pub proof fn lemma_inverse2(x: Fq2Value)
    requires
        x.canonical(),
        x != Fq2Value::zero(),
    ensures
        x.mul(x.inv()) == Fq2Value::one(),
{
    lemma_norm_zero2(x);
    let n = x.norm();
    let t = fq_inv(n);
    let (a, b) = (x.c0, x.c1);
    vstd::arithmetic::div_mod::lemma_mod_bound(a * a + b * b, q());
    vstd::arithmetic::div_mod::lemma_small_mod(n as nat, q() as nat);
    crate::model::base::lemma_fq_inverse(n);
    let raw = x.conj().scaled(t);
    lemma_reduce2(raw);
    lemma_eqv_times2(x, x.inv(), x, raw);
    // x * (conj(x) t) = ((a^2 + b^2) t, 0)
    let s = a * a + b * b;
    assert(x.times(raw).c0 == s * t) by (nonlinear_arith)
        requires
            x.times(raw).c0 == a * (a * t) - b * ((-b) * t),
            s == a * a + b * b,
    ;
    assert(x.times(raw).c1 == 0) by (nonlinear_arith)
        requires
            x.times(raw).c1 == a * ((-b) * t) + b * (a * t),
    ;
    vstd::arithmetic::div_mod::lemma_mul_mod_noop_left(s, t, q());
    vstd::arithmetic::div_mod::lemma_small_mod(0, q() as nat);
    vstd::arithmetic::div_mod::lemma_small_mod(1, q() as nat);
    lemma_reduce2(x.times(x.inv()));
    lemma_canonical_equal2(x.mul(x.inv()), Fq2Value::one());
}

/// Products associate, and one is neutral.
pub proof fn lemma_times_associates2(a: Fq2Value, b: Fq2Value, c: Fq2Value)
    ensures
        a.times(b).times(c) == a.times(b.times(c)),
        a.times(Fq2Value::one()) == a,
        Fq2Value::one().times(a) == a,
        a.times(Fq2Value::zero()) == Fq2Value::zero(),
        Fq2Value::zero().times(a) == Fq2Value::zero(),
{
    let (a0, a1, b0, b1, c0, c1) = (a.c0, a.c1, b.c0, b.c1, c.c0, c.c1);
    vstd::arithmetic::mul::lemma_mul_is_associative(a0, b0, c0);
    vstd::arithmetic::mul::lemma_mul_is_associative(a0, b0, c1);
    vstd::arithmetic::mul::lemma_mul_is_associative(a0, b1, c0);
    vstd::arithmetic::mul::lemma_mul_is_associative(a0, b1, c1);
    vstd::arithmetic::mul::lemma_mul_is_associative(a1, b0, c0);
    vstd::arithmetic::mul::lemma_mul_is_associative(a1, b0, c1);
    vstd::arithmetic::mul::lemma_mul_is_associative(a1, b1, c0);
    vstd::arithmetic::mul::lemma_mul_is_associative(a1, b1, c1);
    vstd::arithmetic::mul::lemma_mul_is_distributive_sub_other_way(c0, a0 * b0, a1 * b1);
    vstd::arithmetic::mul::lemma_mul_is_distributive_sub_other_way(c1, a0 * b0, a1 * b1);
    lemma_mul_is_distributive_add_other_way(c0, a0 * b1, a1 * b0);
    lemma_mul_is_distributive_add_other_way(c1, a0 * b1, a1 * b0);
    vstd::arithmetic::mul::lemma_mul_is_distributive_sub(a0, b0 * c0, b1 * c1);
    vstd::arithmetic::mul::lemma_mul_is_distributive_sub(a1, b0 * c0, b1 * c1);
    lemma_mul_is_distributive_add(a0, b0 * c1, b1 * c0);
    lemma_mul_is_distributive_add(a1, b0 * c1, b1 * c0);
    assert(a0 * 1 == a0 && a1 * 1 == a1 && a0 * 0 == 0 && a1 * 0 == 0);
    assert(1 * a0 == a0 && 1 * a1 == a1 && 0 * a0 == 0 && 0 * a1 == 0);
}

/// The conjugate of a product is the product of the conjugates.
pub proof fn lemma_conj_times2(a: Fq2Value, b: Fq2Value)
    ensures
        a.times(b).conj() == a.conj().times(b.conj()),
{
    vstd::arithmetic::mul::lemma_mul_unary_negation(a.c1, b.c1);
    vstd::arithmetic::mul::lemma_mul_unary_negation(a.c1, -b.c1);
    vstd::arithmetic::mul::lemma_mul_unary_negation(a.c0, b.c1);
    vstd::arithmetic::mul::lemma_mul_unary_negation(a.c1, b.c0);
}

/// The conjugate of a product, times a third element: the conjugate goes
/// into the factors, and the factors may be taken together anew.
pub proof fn lemma_semilinear2(f: Fq2Value, g: Fq2Value, h: Fq2Value)
    ensures
        f.mul(g).conjugate().mul(h) == f.conjugate().mul(g.conjugate().mul(h)),
{
    let (cf, cg) = (f.conj(), g.conj());
    lemma_reduce2(f.times(g));
    lemma_eqv_unary2(f.mul(g), f.times(g));
    lemma_eqv_times2(f.mul(g).conjugate(), h, f.times(g).conj(), h);
    lemma_conj_times2(f, g);
    lemma_times_associates2(cf, cg, h);
    lemma_reduce2(cf);
    lemma_reduce2(cg);
    lemma_eqv_times2(g.conjugate(), h, cg, h);
    lemma_eqv_times2(f.conjugate(), g.conjugate().mul(h), cf, cg.times(h));
    lemma_reduce2(f.mul(g).conjugate().times(h));
    lemma_reduce2(f.conjugate().times(g.conjugate().mul(h)));
    lemma_canonical_equal2(
        f.mul(g).conjugate().mul(h),
        f.conjugate().mul(g.conjugate().mul(h)),
    );
}

/// The same with one more factor `k` in between.
pub proof fn lemma_semilinear3(f: Fq2Value, g: Fq2Value, k: Fq2Value, h: Fq2Value)
    ensures
        f.mul(g).conjugate().mul(k).mul(h) == f.conjugate().mul(k).mul(g.conjugate().mul(h)),
{
    let (cf, cg) = (f.conj(), g.conj());
    lemma_reduce2(f.times(g));
    lemma_eqv_unary2(f.mul(g), f.times(g));
    lemma_eqv_times2(f.mul(g).conjugate(), k, f.times(g).conj(), k);
    lemma_eqv_times2(f.mul(g).conjugate().mul(k), h, f.times(g).conj().times(k), h);
    lemma_conj_times2(f, g);
    // ((cf cg) k) h = (cf (cg k)) h = (cf (k cg)) h = ((cf k) cg) h = (cf k)(cg h)
    lemma_times_associates2(cf, cg, k);
    lemma_times_distributes2(cg, k, k);
    lemma_times_associates2(cf, k, cg);
    lemma_times_associates2(cf.times(k), cg, h);
    assert(cf.times(cg).times(k).times(h) == cf.times(k).times(cg.times(h)));
    lemma_reduce2(cf);
    lemma_reduce2(cg);
    lemma_eqv_times2(g.conjugate(), h, cg, h);
    lemma_eqv_times2(f.conjugate(), k, cf, k);
    lemma_eqv_times2(f.conjugate().mul(k), g.conjugate().mul(h), cf.times(k), cg.times(h));
    lemma_reduce2(f.mul(g).conjugate().mul(k).times(h));
    lemma_reduce2(f.conjugate().mul(k).times(g.conjugate().mul(h)));
    lemma_canonical_equal2(
        f.mul(g).conjugate().mul(k).mul(h),
        f.conjugate().mul(k).mul(g.conjugate().mul(h)),
    );
}

/// One more Frobenius map after `j` of them is `j + 1` of them.
pub proof fn lemma_frobenius_next2(x: Fq2Value, j: nat)
    ensures
        x.frobenius(j).frobenius(1) == x.frobenius(j + 1),
        x.frobenius(j).conjugate() == x.frobenius(j + 1),
{
    lemma_reduce2(x);
    lemma_reduce2(x.conj());
    lemma_eqv_unary2(x.reduce(), x);
    lemma_eqv_unary2(x.conjugate(), x.conj());
    assert(x.conj().conj() == x);
    lemma_reduce2(x.reduce().conj());
    lemma_reduce2(x.conjugate().conj());
    if j % 2 == 0 {
        lemma_canonical_equal2(x.reduce().conjugate(), x.conjugate());
    } else {
        lemma_canonical_equal2(x.conjugate().conjugate(), x.reduce());
    }
}

/// The laws of the product in the field.
pub proof fn lemma_mul_laws2(a: Fq2Value, b: Fq2Value, c: Fq2Value)
    ensures
        a.mul(b).mul(c) == a.mul(b.mul(c)),
        a.mul(b) == b.mul(a),
        a.canonical() ==> a.mul(Fq2Value::one()) == a && Fq2Value::one().mul(a) == a,
        a.mul(Fq2Value::zero()) == Fq2Value::zero(),
        a.mul(b).canonical(),
{
    lemma_reduce2(a.times(b));
    lemma_reduce2(b.times(c));
    lemma_eqv_times2(a.mul(b), c, a.times(b), c);
    lemma_eqv_times2(a, b.mul(c), a, b.times(c));
    lemma_times_associates2(a, b, c);
    lemma_reduce2(a.mul(b).times(c));
    lemma_reduce2(a.times(b.mul(c)));
    lemma_canonical_equal2(a.mul(b).mul(c), a.mul(b.mul(c)));
    lemma_times_distributes2(a, b, c);
    lemma_reduce2(a);
    lemma_reduce2(Fq2Value::zero());
    vstd::arithmetic::div_mod::lemma_small_mod(0, q() as nat);
}

/// In Fq2 a product is zero only where a factor is zero.
pub proof fn lemma_no_zero_divisors2(a: Fq2Value, b: Fq2Value)
    requires
        a.canonical(),
        b.canonical(),
        a.mul(b) == Fq2Value::zero(),
    ensures
        a == Fq2Value::zero() || b == Fq2Value::zero(),
{
    if a != Fq2Value::zero() {
        // b = (a^-1 a) b = a^-1 (a b) = 0
        lemma_inverse2(a);
        let i = a.inv();
        lemma_mul_laws2(a, i, b);
        lemma_mul_laws2(i, a, b);
        lemma_mul_laws2(b, i, i);
        lemma_mul_laws2(i, i, i);
    }
}

} // verus!
