//! The quadratic extension Fq2 = Fq[u]/(u^2 + 1).

use crate::fq::Fq;
use crate::model::base::{
    canonical, fq_add, fq_inv, fq_sub, lemma_congruent_linear, lemma_reduce_congruent, q,
};
use crate::model::quadratic::{lemma_canonical_equal2, lemma_eqv_plus2, lemma_reduce2, Fq2Value};
use crate::params::FROBENIUS_COEFF_FQ2_C1;
use vstd::arithmetic::div_mod::{
    lemma_add_mod_noop, lemma_mod_multiples_vanish, lemma_mul_mod_noop_right, lemma_small_mod,
    lemma_sub_mod_noop,
};
use vstd::prelude::*;

verus! {

/// An element `c0 + c1 * u` of Fq2, as `[c0, c1]`.
#[derive(Clone, Copy, Debug)]
pub struct Fq2(pub [Fq; 2]);

impl View for Fq2 {
    type V = Fq2Value;

    open spec fn view(&self) -> Fq2Value {
        Fq2Value { c0: self.0[0]@, c1: self.0[1]@ }
    }
}

impl PartialEq for Fq2 {
    fn eq(&self, other: &Self) -> (r: bool) {
        self.0[0] == other.0[0] && self.0[1] == other.0[1]
    }
}

impl vstd::std_specs::cmp::PartialEqSpecImpl for Fq2 {
    open spec fn obeys_eq_spec() -> bool {
        true
    }

    open spec fn eq_spec(&self, other: &Self) -> bool {
        self.same(other)
    }
}

impl Eq for Fq2 {

}

impl Fq2 {
    /// Both coefficients are reduced.
    pub open spec fn wf(&self) -> bool {
        self.0[0].wf() && self.0[1].wf()
    }

    /// Limb by limb the same.
    pub open spec fn same(&self, other: &Self) -> bool {
        self.0[0].same(&other.0[0]) && self.0[1].same(&other.0[1])
    }

    /// The value of an element is canonical.
    pub proof fn lemma_canonical(self)
        ensures
            self@.canonical(),
    {
        self.0[0].lemma_canonical();
        self.0[1].lemma_canonical();
    }

    pub fn zero() -> (r: Self)
        ensures
            r.wf(),
            r@ == Fq2Value::zero(),
    {
        Self([Fq::zero(), Fq::zero()])
    }

    pub fn is_zero(self) -> (b: bool)
        requires
            self.wf(),
        ensures
            b == (self@ == Fq2Value::zero()),
    {
        self.0[0].is_zero() && self.0[1].is_zero()
    }

    pub fn one() -> (r: Self)
        ensures
            r.wf(),
            r@ == Fq2Value::one(),
    {
        Self([Fq::one(), Fq::zero()])
    }

    pub fn double(self) -> (r: Self)
        requires
            self.wf(),
        ensures
            r.wf(),
            r@ == self@.double(),
    {
        Self([self.0[0].double(), self.0[1].double()])
    }

    /// `(a^2 - b^2) + 2ab u`.
    pub fn square(self) -> (r: Self)
        requires
            self.wf(),
        ensures
            r.wf(),
            r@ == self@.square(),
    {
        let re = self.0[0].square().sub(self.0[1].square());
        let im = (self.0[0].mul(self.0[1])).double();
        let r = Self([re, im]);
        proof {
            let (a, b) = (self@.c0, self@.c1);
            lemma_sub_mod_noop(a * a, b * b, q());
            lemma_add_mod_noop(a * b, a * b, q());
            vstd::arithmetic::mul::lemma_mul_is_commutative(a, b);
        }
        r
    }

    /// The inverse, which is the conjugate over the norm `a^2 + b^2`, and
    /// nothing for zero.
    pub fn invert(self) -> (r: Option<Self>)
        requires
            self.wf(),
        ensures
            r is None <==> self@ == Fq2Value::zero(),
            r matches Some(x) ==> x.wf() && x@ == self@.inv() && self@.mul(x@)
                == Fq2Value::one(),
    {
        let (a, b) = (self.0[0], self.0[1]);
        proof {
            lemma_add_mod_noop(a@ * a@, b@ * b@, q());
            self.lemma_canonical();
            crate::model::quadratic::lemma_norm_zero2(self@);
        }
        if self.is_zero() {
            None
        } else {
            let t = a.square().add(b.square());
            match t.invert() {
                None => None,
                Some(t_inv) => {
                    let r = Self([t_inv.mul(a), t_inv.mul(b.neg())]);
                    proof {
                        let k = fq_inv(self@.norm());
                        lemma_mul_mod_noop_right(k, -b@, q());
                        vstd::arithmetic::mul::lemma_mul_is_commutative(k, a@);
                        vstd::arithmetic::mul::lemma_mul_is_commutative(k, -b@);
                        crate::model::quadratic::lemma_inverse2(self@);
                    }
                    Some(r)
                },
            }
        }
    }

    /// The product with the non-residue `9 + u`: `(9a - b) + (a + 9b) u`,
    /// from three doublings and one sum and one difference of the
    /// coefficients.
    pub fn mul_by_nonres(self) -> (r: Self)
        requires
            self.wf(),
        ensures
            r.wf(),
            r@ == self@.mul_by_nonres(),
    {
        let t0 = self.0[0];
        let t1 = self.0[1];
        let d1 = self.double();
        let d2 = d1.double();
        let d3 = d2.double();
        let c0 = d3.0[0].add(t0.sub(t1));
        let c1 = d3.0[1].add(t0.add(t1));
        let r = Self([c0, c1]);
        proof {
            let x = self@;
            lemma_reduce2(x);
            lemma_eqv_plus2(x, x, x, x);
            lemma_eqv_plus2(d1@, d1@, x.plus(x), x.plus(x));
            lemma_eqv_plus2(d2@, d2@, x.plus(x).plus(x.plus(x)), x.plus(x).plus(x.plus(x)));
            lemma_reduce_congruent(x.c0 - x.c1);
            lemma_reduce_congruent(x.c0 + x.c1);
            lemma_congruent_linear(1, d3@.c0, 1, fq_sub(x.c0, x.c1), 8 * x.c0, x.c0 - x.c1);
            lemma_congruent_linear(1, d3@.c1, 1, fq_add(x.c0, x.c1), 8 * x.c1, x.c0 + x.c1);
            r.lemma_canonical();
            lemma_reduce2(x.times_xi());
            lemma_canonical_equal2(r@, x.mul_by_nonres());
        }
        r
    }

    pub fn conjugate(&self) -> (r: Self)
        requires
            self.wf(),
        ensures
            r.wf(),
            r@ == self@.conjugate(),
    {
        proof {
            self.lemma_canonical();
            lemma_small_mod(self@.c0 as nat, q() as nat);
        }
        Self([self.0[0], self.0[1].neg()])
    }

    /// The Frobenius map `x -> x^q` of Fq2, which is the conjugation.
    pub fn frobenius_map(&self) -> (r: Self)
        requires
            self.wf(),
        ensures
            r.wf(),
            r@ == self@.frobenius(1),
    {
        self.conjugate()
    }

    /// The `power`-th Frobenius map: the imaginary part times 1 or -1.
    pub fn frobenius_maps(self, power: usize) -> (r: Self)
        requires
            self.wf(),
        ensures
            r.wf(),
            r@ == self@.frobenius(power as nat),
    {
        let c0 = self.0[0];
        let coeff = Fq(FROBENIUS_COEFF_FQ2_C1[power % 2]);
        proof {
            self.lemma_canonical();
            lemma_small_mod(self@.c0 as nat, q() as nat);
            lemma_small_mod(self@.c1 as nat, q() as nat);
            lemma_coefficients();
            assert(self@.c1 * 1 == self@.c1);
            assert(self@.c1 * (q() - 1) == self@.c1 * q() - self@.c1) by (nonlinear_arith);
            lemma_mod_multiples_vanish(self@.c1, -self@.c1, q());
        }
        let c1 = self.0[1].mul(coeff);
        Self([c0, c1])
    }

    pub fn add(self, rhs: Self) -> (r: Self)
        requires
            self.wf(),
            rhs.wf(),
        ensures
            r.wf(),
            r@ == self@.add(rhs@),
    {
        Self([self.0[0].add(rhs.0[0]), self.0[1].add(rhs.0[1])])
    }

    pub fn add_assign(&mut self, rhs: Self)
        requires
            old(self).wf(),
            rhs.wf(),
        ensures
            final(self).wf(),
            final(self)@ == old(self)@.add(rhs@),
    {
        *self = self.add(rhs);
    }

    pub fn neg(self) -> (r: Self)
        requires
            self.wf(),
        ensures
            r.wf(),
            r@ == self@.neg(),
    {
        Self([self.0[0].neg(), self.0[1].neg()])
    }

    pub fn sub(self, rhs: Self) -> (r: Self)
        requires
            self.wf(),
            rhs.wf(),
        ensures
            r.wf(),
            r@ == self@.sub(rhs@),
    {
        Self([self.0[0].sub(rhs.0[0]), self.0[1].sub(rhs.0[1])])
    }

    pub fn sub_assign(&mut self, rhs: Self)
        requires
            old(self).wf(),
            rhs.wf(),
        ensures
            final(self).wf(),
            final(self)@ == old(self)@.sub(rhs@),
    {
        *self = self.sub(rhs);
    }

    /// `(ac - bd) + (ad + bc) u`.
    pub fn mul(self, rhs: Self) -> (r: Self)
        requires
            self.wf(),
            rhs.wf(),
        ensures
            r.wf(),
            r@ == self@.mul(rhs@),
    {
        let re = (self.0[0].mul(rhs.0[0])).sub(self.0[1].mul(rhs.0[1]));
        let im = (self.0[0].mul(rhs.0[1])).add(self.0[1].mul(rhs.0[0]));
        proof {
            let (a, b, c, d) = (self@.c0, self@.c1, rhs@.c0, rhs@.c1);
            lemma_sub_mod_noop(a * c, b * d, q());
            lemma_add_mod_noop(a * d, b * c, q());
        }
        Self([re, im])
    }

    pub fn mul_assign(&mut self, rhs: Self)
        requires
            old(self).wf(),
            rhs.wf(),
        ensures
            final(self).wf(),
            final(self)@ == old(self)@.mul(rhs@),
    {
        *self = self.mul(rhs);
    }
}

/// The two entries of the coefficient table are 1 and -1.
proof fn lemma_coefficients()
    ensures
        Fq(FROBENIUS_COEFF_FQ2_C1[0]).wf(),
        Fq(FROBENIUS_COEFF_FQ2_C1[1]).wf(),
        Fq(FROBENIUS_COEFF_FQ2_C1[0])@ == 1,
        Fq(FROBENIUS_COEFF_FQ2_C1[1])@ == q() - 1,
{
    Fq::lemma_from_limbs(FROBENIUS_COEFF_FQ2_C1[0], 1);
    Fq::lemma_from_limbs(FROBENIUS_COEFF_FQ2_C1[1], q() - 1);
}

} // verus!
