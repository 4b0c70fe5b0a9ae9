//! The sextic extension Fq6 = Fq2[v]/(v^3 - xi), with `xi = 9 + u`.

use crate::fq::Fq;
use crate::fq2::Fq2;
use crate::model::quadratic::{
    lemma_canonical_equal2, lemma_cross2, lemma_eqv_plus2, lemma_eqv_unary2, lemma_reduce2,
    Fq2Value,
};
use crate::model::sextic::{lemma_cofactors, lemma_inv6, lemma_mul_by_01, lemma_square6, Fq6Value};
use crate::params::{
    frobenius_coeff_fq6_c1, frobenius_coeff_fq6_c2, FROBENIUS_COEFF_FQ6_C1, FROBENIUS_COEFF_FQ6_C2,
};
use vstd::prelude::*;

verus! {

/// An element `c0 + c1 * v + c2 * v^2` of Fq6, as `[c0, c1, c2]`.
#[derive(Clone, Copy, Debug)]
pub struct Fq6(pub [Fq2; 3]);

impl View for Fq6 {
    type V = Fq6Value;

    open spec fn view(&self) -> Fq6Value {
        Fq6Value { c0: self.0[0]@, c1: self.0[1]@, c2: self.0[2]@ }
    }
}

impl PartialEq for Fq6 {
    fn eq(&self, other: &Self) -> (r: bool) {
        self.0[0] == other.0[0] && self.0[1] == other.0[1] && self.0[2] == other.0[2]
    }
}

impl vstd::std_specs::cmp::PartialEqSpecImpl for Fq6 {
    open spec fn obeys_eq_spec() -> bool {
        true
    }

    open spec fn eq_spec(&self, other: &Self) -> bool {
        self.same(other)
    }
}

impl Eq for Fq6 {

}

/// `(x0 + x1)(y0 + y1) - x0 y0 - x1 y1`, which is `x0 y1 + x1 y0`, from the
/// two products `xy0 = x0 y0` and `xy1 = x1 y1` and one more.
fn cross(x0: Fq2, x1: Fq2, y0: Fq2, y1: Fq2, xy0: Fq2, xy1: Fq2) -> (r: Fq2)
    requires
        x0.wf(),
        x1.wf(),
        y0.wf(),
        y1.wf(),
        xy0.wf(),
        xy1.wf(),
        xy0@ == x0@.mul(y0@),
        xy1@ == x1@.mul(y1@),
    ensures
        r.wf(),
        r@ == x0@.times(y1@).plus(x1@.times(y0@)).reduce(),
{
    let s = x0.add(x1);
    let u = y0.add(y1);
    let m = s.mul(u);
    let d = m.sub(xy0);
    let r = d.sub(xy1);
    proof {
        lemma_cross2(x0@, x1@, y0@, y1@);
    }
    r
}

impl Fq6 {
    /// All coefficients are reduced.
    pub open spec fn wf(&self) -> bool {
        self.0[0].wf() && self.0[1].wf() && self.0[2].wf()
    }

    /// Limb by limb the same.
    pub open spec fn same(&self, other: &Self) -> bool {
        self.0[0].same(&other.0[0]) && self.0[1].same(&other.0[1]) && self.0[2].same(&other.0[2])
    }

    /// The value of an element is canonical.
    pub proof fn lemma_canonical(self)
        ensures
            self@.canonical(),
    {
        self.0[0].lemma_canonical();
        self.0[1].lemma_canonical();
        self.0[2].lemma_canonical();
    }

    pub fn zero() -> (r: Self)
        ensures
            r.wf(),
            r@ == Fq6Value::zero(),
    {
        Self([Fq2::zero(), Fq2::zero(), Fq2::zero()])
    }

    pub fn one() -> (r: Self)
        ensures
            r.wf(),
            r@ == Fq6Value::one(),
    {
        Self([Fq2::one(), Fq2::zero(), Fq2::zero()])
    }

    pub fn double(self) -> (r: Self)
        requires
            self.wf(),
        ensures
            r.wf(),
            r@ == self@.double(),
    {
        Self([self.0[0].double(), self.0[1].double(), self.0[2].double()])
    }

    pub fn add(self, rhs: Self) -> (r: Self)
        requires
            self.wf(),
            rhs.wf(),
        ensures
            r.wf(),
            r@ == self@.add(rhs@),
    {
        Self([self.0[0].add(rhs.0[0]), self.0[1].add(rhs.0[1]), self.0[2].add(rhs.0[2])])
    }

    pub fn neg(self) -> (r: Self)
        requires
            self.wf(),
        ensures
            r.wf(),
            r@ == self@.neg(),
    {
        Self([self.0[0].neg(), self.0[1].neg(), self.0[2].neg()])
    }

    pub fn sub(self, rhs: Self) -> (r: Self)
        requires
            self.wf(),
            rhs.wf(),
        ensures
            r.wf(),
            r@ == self@.sub(rhs@),
    {
        Self([self.0[0].sub(rhs.0[0]), self.0[1].sub(rhs.0[1]), self.0[2].sub(rhs.0[2])])
    }

    pub fn sub_assign(&mut self, rhs: Self)
        requires
            old(self).wf(),
            rhs.wf(),
        ensures
            final(self).wf(),
            final(self)@ == old(self)@.sub(rhs@),
    {
        *self = self.sub(rhs);
    }

    /// The product, from six products in Fq2: the three of like coefficients
    /// and one for each pair of unlike ones.
    pub fn mul(self, rhs: Self) -> (r: Self)
        requires
            self.wf(),
            rhs.wf(),
        ensures
            r.wf(),
            r@ == self@.mul(rhs@),
    {
        let (a0, a1, a2) = (self.0[0], self.0[1], self.0[2]);
        let (b0, b1, b2) = (rhs.0[0], rhs.0[1], rhs.0[2]);
        let a_a = a0.mul(b0);
        let b_b = a1.mul(b1);
        let c_c = a2.mul(b2);
        let x12 = cross(a1, a2, b1, b2, b_b, c_c);
        let x01 = cross(a0, a1, b0, b1, a_a, b_b);
        let x02 = cross(a0, a2, b0, b2, a_a, c_c);
        let n12 = x12.mul_by_nonres();
        let ncc = c_c.mul_by_nonres();
        let t1 = a_a.add(n12);
        let t2 = x01.add(ncc);
        let t3 = x02.add(b_b);
        let r = Self([t1, t2, t3]);
        proof {
            let (a, b) = (self@, rhs@);
            let want = a.times(b);
            lemma_reduce2(a.c0.times(b.c0));
            lemma_reduce2(a.c1.times(b.c1));
            lemma_reduce2(a.c2.times(b.c2));
            lemma_reduce2(a.c1.times(b.c2).plus(a.c2.times(b.c1)));
            lemma_reduce2(a.c0.times(b.c1).plus(a.c1.times(b.c0)));
            lemma_reduce2(a.c0.times(b.c2).plus(a.c2.times(b.c0)));
            lemma_eqv_unary2(x12@, a.c1.times(b.c2).plus(a.c2.times(b.c1)));
            lemma_eqv_unary2(c_c@, a.c2.times(b.c2));
            lemma_eqv_plus2(
                a_a@,
                n12@,
                a.c0.times(b.c0),
                a.c1.times(b.c2).plus(a.c2.times(b.c1)).times_xi(),
            );
            lemma_eqv_plus2(
                x01@,
                ncc@,
                a.c0.times(b.c1).plus(a.c1.times(b.c0)),
                a.c2.times(b.c2).times_xi(),
            );
            lemma_eqv_plus2(
                x02@,
                b_b@,
                a.c0.times(b.c2).plus(a.c2.times(b.c0)),
                a.c1.times(b.c1),
            );
            assert(a.c0.times(b.c2).plus(a.c2.times(b.c0)).plus(a.c1.times(b.c1)) == want.c2);
            lemma_reduce2(want.c0);
            lemma_reduce2(want.c1);
            lemma_reduce2(want.c2);
            r.lemma_canonical();
            lemma_canonical_equal2(t1@, want.c0.reduce());
            lemma_canonical_equal2(t2@, want.c1.reduce());
            lemma_canonical_equal2(t3@, want.c2.reduce());
        }
        r
    }

    /// The square, by the formula of Chung and Hasan: two squares, two
    /// products and the square of `a0 - a1 + a2`.
    pub fn square(self) -> (r: Self)
        requires
            self.wf(),
        ensures
            r.wf(),
            r@ == self@.square(),
    {
        let s0 = self.0[0].square();
        let ab = self.0[0].mul(self.0[1]);
        let s1 = ab.double();
        let s2 = self.0[0].sub(self.0[1]).add(self.0[2]).square();
        let bc = self.0[1].mul(self.0[2]);
        let s3 = bc.double();
        let s4 = self.0[2].square();

        let c0 = s3.mul_by_nonres().add(s0);
        let c1 = s4.mul_by_nonres().add(s1);
        let c2 = s1.add(s2).add(s3).sub(s0).sub(s4);
        proof {
            lemma_square6(self@);
        }
        Self([c0, c1, c2])
    }

    /// The inverse, which is the cofactors over the norm down to Fq2, and
    /// nothing for zero, the one element whose norm is zero.
    pub fn invert(self) -> (r: Option<Self>)
        requires
            self.wf(),
        ensures
            r is None <==> self@ == Fq6Value::zero(),
            r is None <==> self@.norm() == Fq2Value::zero(),
            r matches Some(x) ==> x.wf() && x@ == self@.inv() && self@.mul(x@)
                == Fq6Value::one(),
    {
        let c0 = self.0[0].square().sub(self.0[1].mul(self.0[2]).mul_by_nonres());
        let c1 = self.0[2].square().mul_by_nonres().sub(self.0[0].mul(self.0[1]));
        let c2 = self.0[1].square().sub(self.0[0].mul(self.0[2]));
        let tmp = self.0[1].mul(c2).add(self.0[2].mul(c1)).mul_by_nonres().add(
            self.0[0].mul(c0),
        );
        proof {
            lemma_cofactors(self@);
            crate::model::final_exp::lemma_zero_norms();
            self.lemma_canonical();
            if self@ != Fq6Value::zero() {
                crate::model::field::lemma_field6(self@);
            }
        }
        match tmp.invert() {
            None => None,
            Some(t) => {
                proof {
                    lemma_inv6(self@, t@);
                    crate::model::sextic::lemma_inverse6(self@);
                }
                Some(Self([c0.mul(t), c1.mul(t), c2.mul(t)]))
            },
        }
    }

    /// The product with `c0 + c1 * v`, from five products in Fq2.
    pub fn mul_by_01(&self, c0: Fq2, c1: Fq2) -> (r: Self)
        requires
            self.wf(),
            c0.wf(),
            c1.wf(),
        ensures
            r.wf(),
            r@ == self@.mul_by_01(c0@, c1@),
    {
        let a_a = self.0[0].mul(c0);
        let b_b = self.0[1].mul(c1);
        let t1 = self.0[1].add(self.0[2]).mul(c1).sub(b_b).mul_by_nonres().add(a_a);
        let t2 = self.0[0].add(self.0[1]).mul(c0.add(c1)).sub(a_a).sub(b_b);
        let t3 = self.0[0].add(self.0[2]).mul(c0).sub(a_a).add(b_b);
        proof {
            lemma_mul_by_01(self@, c0@, c1@);
        }
        Self([t1, t2, t3])
    }

    /// The Frobenius map `x -> x^q`.
    pub fn frobenius_map(&self) -> (r: Self)
        requires
            self.wf(),
        ensures
            r.wf(),
            r@ == self@.frobenius(1),
    {
        let c0 = self.0[0].frobenius_map();
        let c1 = self.0[1].frobenius_map().mul(coeff_c1(1));
        let c2 = self.0[2].frobenius_map().mul(coeff_c2(1));
        Self([c0, c1, c2])
    }

    /// The `power`-th Frobenius map.
    pub fn frobenius_maps(self, power: usize) -> (r: Self)
        requires
            self.wf(),
        ensures
            r.wf(),
            r@ == self@.frobenius(power as nat),
    {
        let c0 = self.0[0].frobenius_maps(power);
        let c1 = self.0[1].frobenius_maps(power).mul(coeff_c1(power));
        let c2 = self.0[2].frobenius_maps(power).mul(coeff_c2(power));
        Self([c0, c1, c2])
    }

    /// The product with `v`.
    pub fn mul_by_nonres(self) -> (r: Self)
        requires
            self.wf(),
        ensures
            r.wf(),
            r@ == self@.mul_by_nonres(),
    {
        proof {
            self.lemma_canonical();
            lemma_reduce2(self@.c0);
            lemma_reduce2(self@.c1);
        }
        Self([self.0[2].mul_by_nonres(), self.0[0], self.0[1]])
    }
}

/// An entry of a coefficient table as an element.
pub fn coefficient(entry: [[u64; 4]; 2]) -> (r: Fq2)
    ensures
        r == Fq2([Fq(entry[0]), Fq(entry[1])]),
{
    Fq2([Fq(entry[0]), Fq(entry[1])])
}

/// The factor of the coefficient of `v` under the `power`-th Frobenius map.
pub fn coeff_c1(power: usize) -> (r: Fq2)
    ensures
        r.wf(),
        r@ == frobenius_coeff_fq6_c1((power % 6) as int),
{
    proof {
        lemma_table_c1();
    }
    coefficient(FROBENIUS_COEFF_FQ6_C1[power % 6])
}

/// The factor of the coefficient of `v^2` under the `power`-th Frobenius map.
pub fn coeff_c2(power: usize) -> (r: Fq2)
    ensures
        r.wf(),
        r@ == frobenius_coeff_fq6_c2((power % 6) as int),
{
    proof {
        lemma_table_c2();
    }
    coefficient(FROBENIUS_COEFF_FQ6_C2[power % 6])
}

/// The table `FROBENIUS_COEFF_FQ6_C1` holds the values that the model names.
pub proof fn lemma_table_c1()
    ensures
        forall|k: int|
            0 <= k < 6 ==> {
                let e = #[trigger] FROBENIUS_COEFF_FQ6_C1[k];
                let x = Fq2([Fq(e[0]), Fq(e[1])]);
                x.wf() && x@ == frobenius_coeff_fq6_c1(k)
            },
{
    lemma_entry(FROBENIUS_COEFF_FQ6_C1[0], frobenius_coeff_fq6_c1(0));
    lemma_entry(FROBENIUS_COEFF_FQ6_C1[1], frobenius_coeff_fq6_c1(1));
    lemma_entry(FROBENIUS_COEFF_FQ6_C1[2], frobenius_coeff_fq6_c1(2));
    lemma_entry(FROBENIUS_COEFF_FQ6_C1[3], frobenius_coeff_fq6_c1(3));
    lemma_entry(FROBENIUS_COEFF_FQ6_C1[4], frobenius_coeff_fq6_c1(4));
    lemma_entry(FROBENIUS_COEFF_FQ6_C1[5], frobenius_coeff_fq6_c1(5));
}

/// The table `FROBENIUS_COEFF_FQ6_C2` holds the values that the model names.
pub proof fn lemma_table_c2()
    ensures
        forall|k: int|
            0 <= k < 6 ==> {
                let e = #[trigger] FROBENIUS_COEFF_FQ6_C2[k];
                let x = Fq2([Fq(e[0]), Fq(e[1])]);
                x.wf() && x@ == frobenius_coeff_fq6_c2(k)
            },
{
    lemma_entry(FROBENIUS_COEFF_FQ6_C2[0], frobenius_coeff_fq6_c2(0));
    lemma_entry(FROBENIUS_COEFF_FQ6_C2[1], frobenius_coeff_fq6_c2(1));
    lemma_entry(FROBENIUS_COEFF_FQ6_C2[2], frobenius_coeff_fq6_c2(2));
    lemma_entry(FROBENIUS_COEFF_FQ6_C2[3], frobenius_coeff_fq6_c2(3));
    lemma_entry(FROBENIUS_COEFF_FQ6_C2[4], frobenius_coeff_fq6_c2(4));
    lemma_entry(FROBENIUS_COEFF_FQ6_C2[5], frobenius_coeff_fq6_c2(5));
}

/// A table entry whose limbs are the Montgomery forms of the two numbers of
/// `v` is reduced and has the value `v`.
pub proof fn lemma_entry(e: [[u64; 4]; 2], v: Fq2Value)
    requires
        v.canonical(),
        crate::limbs::limbs_value(e[0]) == crate::limbs::to_mont(v.c0, crate::model::base::q()),
        crate::limbs::limbs_value(e[1]) == crate::limbs::to_mont(v.c1, crate::model::base::q()),
    ensures
        Fq2([Fq(e[0]), Fq(e[1])]).wf(),
        Fq2([Fq(e[0]), Fq(e[1])])@ == v,
{
    Fq::lemma_from_limbs(e[0], v.c0);
    Fq::lemma_from_limbs(e[1], v.c1);
}

} // verus!
