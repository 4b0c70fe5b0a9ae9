//! The final exponentiation on the model of Fq12: the easy part
//! `f^((q^6 - 1)(q^2 + 1))` from one inversion and Frobenius maps, and the
//! hard part from powers by the curve parameter `u`.

use crate::model::dodecic::Fq12Value;
use crate::model::quadratic::Fq2Value;
use crate::model::sextic::Fq6Value;
use crate::params::BN_X;
use vstd::prelude::*;

verus! {

/// The square of `a + b s` in Fq4 = Fq2[s]/(s^2 - xi), as the pair
/// `(a^2 + xi b^2, (a + b)^2 - a^2 - b^2)`.
pub open spec fn fp4_square(a: Fq2Value, b: Fq2Value) -> (Fq2Value, Fq2Value) {
    let t0 = a.square();
    let t1 = b.square();
    (t1.mul_by_nonres().add(t0), a.add(b).square().sub(t0).sub(t1))
}

impl Fq12Value {
    /// The squaring of Granger and Scott, which is the square on the
    /// cyclotomic subgroup: three squares in Fq4, each tripled, less or plus
    /// twice the coefficients.
    #[verifier::opaque]
    pub open spec fn cyclotomic_square(self) -> Self {
        let z0 = self.c0.c0;
        let z4 = self.c0.c1;
        let z3 = self.c0.c2;
        let z2 = self.c1.c0;
        let z1 = self.c1.c1;
        let z5 = self.c1.c2;
        let (a0, a1) = fp4_square(z0, z1);
        let (b0, b1) = fp4_square(z2, z3);
        let (c0, c1) = fp4_square(z4, z5);
        let n1 = c1.mul_by_nonres();
        Fq12Value {
            c0: Fq6Value {
                c0: a0.sub(z0).double().add(a0),
                c1: b0.sub(z4).double().add(b0),
                c2: c0.sub(z3).double().add(c0),
            },
            c1: Fq6Value {
                c0: n1.add(z2).double().add(n1),
                c1: a1.add(z1).double().add(a1),
                c2: b1.add(z5).double().add(b1),
            },
        }
    }

    /// The power with exponent `e` by squaring and multiplying, with the
    /// cyclotomic squaring for the square.
    pub open spec fn cyclotomic_pow(self, e: nat) -> Self
        decreases e,
    {
        if e == 0 {
            Fq12Value::one()
        } else {
            let h = self.cyclotomic_pow(e / 2).cyclotomic_square();
            if e % 2 == 1 {
                h.mul(self)
            } else {
                h
            }
        }
    }

    /// The power with the curve parameter `u` as exponent.
    pub open spec fn cyclotomic_exp(self) -> Self {
        self.cyclotomic_pow(BN_X as nat)
    }

    /// The easy part `f^((q^6 - 1)(q^2 + 1))`.
    pub open spec fn easy_part(self) -> Self {
        let f2 = self.inv().mul(self.conjugate());
        f2.frobenius(2).mul(f2)
    }

    /// The hard part, for an element of the cyclotomic subgroup.
    pub open spec fn hard_part(self) -> Self {
        let r = self;
        let fp = r.frobenius(1);
        let fp2 = r.frobenius(2);
        let fp3 = fp2.frobenius(1);
        let fu = r.cyclotomic_exp();
        let fu2 = fu.cyclotomic_exp();
        let fu3 = fu2.cyclotomic_exp();
        let y3 = fu.frobenius(1).conjugate();
        let fu2p = fu2.frobenius(1);
        let fu3p = fu3.frobenius(1);
        let y2 = fu2.frobenius(2);
        let y0 = fp.mul(fp2).mul(fp3);
        let y1 = r.conjugate();
        let y5 = fu2.conjugate();
        let y4 = fu.mul(fu2p).conjugate();
        let y6 = fu3.mul(fu3p).conjugate().cyclotomic_square().mul(y4).mul(y5);
        let t1 = y3.mul(y5).mul(y6);
        let y6 = y6.mul(y2);
        let t1 = t1.cyclotomic_square().mul(y6).cyclotomic_square();
        let t0 = t1.mul(y1);
        let t1 = t1.mul(y0);
        t0.cyclotomic_square().mul(t1)
    }

    /// The final exponentiation. Where the element has no inverse, which it
    /// has not for zero, the result is one.
    pub open spec fn final_exp(self) -> Self {
        if self.invertible() {
            self.easy_part().hard_part()
        } else {
            Fq12Value::one()
        }
    }
}

/// The cyclotomic square of one is one.
pub proof fn lemma_cyclotomic_square_one()
    ensures
        Fq12Value::one().cyclotomic_square() == Fq12Value::one(),
{
    reveal(Fq12Value::cyclotomic_square);
    let z = Fq2Value::zero();
    let o = Fq2Value::one();
    vstd::arithmetic::div_mod::lemma_small_mod(0, crate::model::base::q() as nat);
    vstd::arithmetic::div_mod::lemma_small_mod(1, crate::model::base::q() as nat);
    vstd::arithmetic::div_mod::lemma_small_mod(2, crate::model::base::q() as nat);
    vstd::arithmetic::div_mod::lemma_small_mod(3, crate::model::base::q() as nat);
    assert(fp4_square(o, z) == (o, z));
    assert(fp4_square(z, z) == (z, z));
    assert(o.sub(o) == z);
    assert(z.double() == z);
    assert(z.add(o) == o);
    assert(z.sub(z) == z);
    assert(z.add(z) == z);
    assert(z.mul_by_nonres() == z);
}

/// One more bit at the low end of the exponent is one more cyclotomic
/// square, and one more product where the bit is set.
pub proof fn lemma_cyclotomic_step(f: Fq12Value, e: nat, bit: nat)
    requires
        bit <= 1,
    ensures
        f.cyclotomic_pow(2 * e + bit) == (if bit == 1 {
            f.cyclotomic_pow(e).cyclotomic_square().mul(f)
        } else {
            f.cyclotomic_pow(e).cyclotomic_square()
        }),
{
    reveal_with_fuel(Fq12Value::cyclotomic_pow, 2);
    if 2 * e + bit == 0 {
        lemma_cyclotomic_square_one();
    } else {
        assert((2 * e + bit) / 2 == e);
        assert((2 * e + bit) % 2 == bit);
    }
}

/// Small numbers are their own remainders.
proof fn lemma_small()
    ensures
        0int % crate::model::base::q() == 0,
        1int % crate::model::base::q() == 1,
{
    vstd::arithmetic::div_mod::lemma_small_mod(0, crate::model::base::q() as nat);
    vstd::arithmetic::div_mod::lemma_small_mod(1, crate::model::base::q() as nat);
}

/// What the operations of Fq2 make of zero and one.
pub proof fn lemma_units2()
    ensures
        Fq2Value::one().mul(Fq2Value::one()) == Fq2Value::one(),
        Fq2Value::one().times(Fq2Value::one()) == Fq2Value::one(),
        Fq2Value::one().inv() == Fq2Value::one(),
        Fq2Value::one().norm() == 1,
        Fq2Value::one().neg().neg() == Fq2Value::one(),
        Fq2Value::zero().neg() == Fq2Value::zero(),
        Fq2Value::zero().add(Fq2Value::zero()) == Fq2Value::zero(),
        Fq2Value::one().add(Fq2Value::zero()) == Fq2Value::one(),
        Fq2Value::zero().add(Fq2Value::one()) == Fq2Value::one(),
        Fq2Value::one().sub(Fq2Value::zero()) == Fq2Value::one(),
        Fq2Value::zero().sub(Fq2Value::zero()) == Fq2Value::zero(),
        Fq2Value::zero().mul_by_nonres() == Fq2Value::zero(),
        forall|x: Fq2Value| (#[trigger] Fq2Value::zero().mul(x)) == Fq2Value::zero(),
        forall|x: Fq2Value| (#[trigger] x.mul(Fq2Value::zero())) == Fq2Value::zero(),
        forall|x: Fq2Value| (#[trigger] x.times(Fq2Value::zero())) == Fq2Value::zero(),
        forall|x: Fq2Value| (#[trigger] Fq2Value::zero().times(x)) == Fq2Value::zero(),
        forall|k: nat| (#[trigger] Fq2Value::zero().frobenius(k)) == Fq2Value::zero(),
        forall|k: nat| (#[trigger] Fq2Value::one().frobenius(k)) == Fq2Value::one(),
{
    lemma_small();
    let q = crate::model::base::q();
    assert(1int * 1int == 1);
    assert(1int * 0int == 0);
    assert(0int * 0int == 0);
    assert(0int * 1int == 0);
    vstd::arithmetic::power::lemma1_pow((q - 2) as nat);
    assert(crate::model::base::fq_inv(1) == 1);
    assert((-1int) % q == q - 1) by {
        vstd::arithmetic::div_mod::lemma_mod_add_multiples_vanish(-1, q);
        vstd::arithmetic::div_mod::lemma_small_mod((q - 1) as nat, q as nat);
    }
    assert((-(q - 1)) % q == 1) by {
        vstd::arithmetic::div_mod::lemma_mod_add_multiples_vanish(-(q - 1), q);
        vstd::arithmetic::div_mod::lemma_small_mod(1, q as nat);
    }
    assert forall|x: Fq2Value| (#[trigger] x.times(Fq2Value::zero())) == Fq2Value::zero() by {
        assert(x.c0 * 0 == 0);
        assert(x.c1 * 0 == 0);
    }
    assert forall|x: Fq2Value| (#[trigger] Fq2Value::zero().times(x)) == Fq2Value::zero() by {
        assert(0 * x.c0 == 0);
        assert(0 * x.c1 == 0);
    }
}

/// What the operations of Fq6 make of zero and one.
pub proof fn lemma_units6()
    ensures
        Fq6Value::one().mul(Fq6Value::one()) == Fq6Value::one(),
        Fq6Value::zero().mul(Fq6Value::zero()) == Fq6Value::zero(),
        Fq6Value::one().mul(Fq6Value::zero()) == Fq6Value::zero(),
        Fq6Value::zero().mul(Fq6Value::one()) == Fq6Value::zero(),
        Fq6Value::zero().mul_by_nonres() == Fq6Value::zero(),
        Fq6Value::zero().neg() == Fq6Value::zero(),
        Fq6Value::one().add(Fq6Value::zero()) == Fq6Value::one(),
        Fq6Value::zero().add(Fq6Value::zero()) == Fq6Value::zero(),
        Fq6Value::one().norm() == Fq2Value::one(),
        Fq6Value::one().inv() == Fq6Value::one(),
        forall|k: nat| (#[trigger] Fq6Value::zero().frobenius(k)) == Fq6Value::zero(),
        forall|k: nat| (#[trigger] Fq6Value::one().frobenius(k)) == Fq6Value::one(),
        forall|x: Fq2Value| (#[trigger] Fq6Value::zero().scale(x)) == Fq6Value::zero(),
{
    lemma_units2();
    lemma_small();
    let z = Fq2Value::zero();
    let o = Fq2Value::one();
    assert(o.times(o) == o);
    assert(z.times_xi() == z);
    assert(z.plus(z) == z);
    assert(o.plus(z) == o);
    assert(o.minus(z) == o);
    assert(z.minus(z) == z);
    assert(z.reduce() == z);
    assert(o.reduce() == o);
    assert(Fq6Value::one().times(Fq6Value::one()) == Fq6Value::one());
    assert(Fq6Value::zero().times(Fq6Value::zero()) == Fq6Value::zero());
    assert(Fq6Value::one().times(Fq6Value::zero()) == Fq6Value::zero());
    assert(Fq6Value::zero().times(Fq6Value::one()) == Fq6Value::zero());
    assert(Fq6Value::one().cofactors() == Fq6Value::one());
    assert(Fq6Value::one().scaled(o) == Fq6Value::one());
}

/// What the operations of Fq12 make of one.
pub proof fn lemma_units12()
    ensures
        Fq12Value::one().mul(Fq12Value::one()) == Fq12Value::one(),
        Fq12Value::one().square() == Fq12Value::one(),
        Fq12Value::one().conjugate() == Fq12Value::one(),
        Fq12Value::one().norm() == Fq6Value::one(),
        Fq12Value::one().invertible(),
        Fq12Value::one().inv() == Fq12Value::one(),
        Fq12Value::one().cyclotomic_square() == Fq12Value::one(),
        forall|k: nat| (#[trigger] Fq12Value::one().frobenius(k)) == Fq12Value::one(),
{
    lemma_units6();
    lemma_units2();
    lemma_small();
    lemma_cyclotomic_square_one();
    let z = Fq6Value::zero();
    let o = Fq6Value::one();
    assert(z.times_v() == z);
    assert(o.plus(z) == o);
    assert(z.plus(z) == z);
    assert(o.minus(z) == o);
    assert(z.negated() == z);
    assert(o.reduce() == o);
    assert(z.reduce() == z);
    assert(o.times(o).reduce() == o);
    assert(z.times(z).reduce() == z);
    assert(o.times(z).reduce() == z);
    assert(z.times(o).reduce() == z);
    assert(Fq12Value::one().times(Fq12Value::one()).reduce() == Fq12Value::one());
    assert(z.neg() == z);
}

/// Every cyclotomic power of one is one.
#[verifier::rlimit(50)]
pub proof fn lemma_cyclotomic_pow_one(e: nat)
    ensures
        Fq12Value::one().cyclotomic_pow(e) == Fq12Value::one(),
    decreases e,
{
    reveal_with_fuel(Fq12Value::cyclotomic_pow, 2);
    lemma_units12();
    if e > 0 {
        lemma_cyclotomic_pow_one(e / 2);
    }
}

/// The final exponentiation takes one to one.
#[verifier::rlimit(50)]
pub proof fn lemma_final_exp_one()
    ensures
        Fq12Value::one().final_exp() == Fq12Value::one(),
{
    lemma_units12();
    lemma_cyclotomic_pow_one(BN_X as nat);
    let o = Fq12Value::one();
    assert(o.easy_part() == o);
    assert(o.cyclotomic_exp() == o);
    assert(o.hard_part() == o);
}

/// One is canonical.
pub proof fn lemma_one_canonical()
    ensures
        Fq12Value::one().canonical(),
{
}

/// Zero has no inverse in Fq6 and Fq12: its norms are zero.
pub proof fn lemma_zero_norms()
    ensures
        Fq6Value::zero().norm() == Fq2Value::zero(),
        !Fq12Value::zero().invertible(),
{
    lemma_units2();
    lemma_small();
    let z = Fq2Value::zero();
    assert(z.times(z) == z);
    assert(z.times_xi() == z);
    assert(z.minus(z) == z);
    assert(z.plus(z) == z);
    assert(z.reduce() == z);
    assert(Fq6Value::zero().cofactors() == Fq6Value::zero());
    assert(Fq6Value::zero().times(Fq6Value::zero()) == Fq6Value::zero());
    assert(Fq6Value::zero().times_v() == Fq6Value::zero());
    assert(Fq6Value::zero().minus(Fq6Value::zero()) == Fq6Value::zero());
    assert(Fq6Value::zero().reduce() == Fq6Value::zero());
    assert(Fq12Value::zero().norm() == Fq6Value::zero());
}

} // verus!
