//! The dodecic extension Fq12 = Fq6[w]/(w^2 - v), in which the pairing takes
//! its values.

use crate::fq::Fq;
use crate::fq2::Fq2;
use crate::fq6::{coefficient, lemma_entry, Fq6};
use crate::g1::G1Affine;
use crate::g2::PairingCoeff;
use crate::gt::Gt;
use crate::model::final_exp::fp4_square as fp4_square_value;
use crate::params::BN_X;
use vstd::arithmetic::power2::pow2;
use crate::model::dodecic::{
    lemma_inv12, lemma_mul12, lemma_mul_by_034, lemma_square12, Fq12Value,
};
use crate::model::sextic::{lemma_reduce6, Fq6Value};
use crate::params::{frobenius_coeff_fq12_c1, gt_generator, FROBENIUS_COEFF_FQ12_C1};
use vstd::prelude::*;

verus! {

/// The value of the pairing at the two generators, in Montgomery form: the
/// six coefficients in Fq2, each as two elements of Fq.
pub const GENERATOR: [[[u64; 4]; 2]; 6] = [
    [
        [0xc556f62b2a98671d, 0x23a59ac167bcf363, 0x5ef208445f5f6f37, 0x12adf27ccb29382a],
        [0x2e02a64acbd60549, 0xd618018ea58e4add, 0x14d585f1a45ba647, 0x1832226987c434fc],
    ],
    [
        [0x2306e4312363b991, 0x465f6072d4023bf4, 0xa2ff062a4a77e736, 0x076ea6f18435864a],
        [0x172d1f257a4d598e, 0xddf5bc7b7ffb5ac0, 0xae0b22c0bbb0f602, 0x1b158f3c2fae9b18],
    ],
    [
        [0x5cf9cc917da86724, 0xc799dc487a0b2753, 0x0df2027bf1de17a7, 0x197cda6cc3e20636],
        [0xf16c96d081754cdb, 0xce0394312bceeb55, 0x644e4dcf1f01ff0a, 0x0cbea85ee0b236cc],
    ],
    [
        [0x1bb0ce0def1b82a1, 0x4c4c9fe1cadefa95, 0x746d9990cb12b27e, 0x13495c08e5d415c5],
        [0x9458abcb56d24998, 0xb17540bd2a9e5adb, 0x9a9983c82e401a9f, 0x1614817a84c16291],
    ],
    [
        [0x8975b68a2bab1f9c, 0x2fdd826b796e0f35, 0x6a90a35fa03dfaa5, 0x1ffef4581607fc37],
        [0x7002907c28ebfe11, 0x7b0591d3d080da67, 0xde7e5aa2181f138e, 0x210e437dfc43d951],
    ],
    [
        [0x988ae2485b36cf53, 0x5091cc0581334e54, 0xda7903229312ca0f, 0x2a2341538eaee95c],
        [0xd34bab373157aa84, 0x3511ed44fd0d8598, 0x67e42a0bc2ced972, 0x2b8f1d5dfd20c55b],
    ],
];

/// An element `c0 + c1 * w` of Fq12, as `[c0, c1]`.
#[derive(Clone, Copy, Debug)]
pub struct Fq12(pub [Fq6; 2]);

impl View for Fq12 {
    type V = Fq12Value;

    open spec fn view(&self) -> Fq12Value {
        Fq12Value { c0: self.0[0]@, c1: self.0[1]@ }
    }
}

impl PartialEq for Fq12 {
    fn eq(&self, other: &Self) -> (r: bool) {
        self.0[0] == other.0[0] && self.0[1] == other.0[1]
    }
}

impl vstd::std_specs::cmp::PartialEqSpecImpl for Fq12 {
    open spec fn obeys_eq_spec() -> bool {
        true
    }

    open spec fn eq_spec(&self, other: &Self) -> bool {
        self.same(other)
    }
}

impl Eq for Fq12 {

}

impl Fq12 {
    /// All coefficients are reduced.
    pub open spec fn wf(&self) -> bool {
        self.0[0].wf() && self.0[1].wf()
    }

    /// Limb by limb the same.
    pub open spec fn same(&self, other: &Self) -> bool {
        self.0[0].same(&other.0[0]) && self.0[1].same(&other.0[1])
    }

    /// The value of an element is canonical.
    pub proof fn lemma_canonical(self)
        ensures
            self@.canonical(),
    {
        self.0[0].lemma_canonical();
        self.0[1].lemma_canonical();
    }

    pub fn one() -> (r: Self)
        ensures
            r.wf(),
            r@ == Fq12Value::one(),
    {
        Self([Fq6::one(), Fq6::zero()])
    }

    pub fn add(self, rhs: Self) -> (r: Self)
        requires
            self.wf(),
            rhs.wf(),
        ensures
            r.wf(),
            r@ == self@.add(rhs@),
    {
        Self([self.0[0].add(rhs.0[0]), self.0[1].add(rhs.0[1])])
    }

    /// The product, from three products in Fq6.
    pub fn mul(self, rhs: Self) -> (r: Self)
        requires
            self.wf(),
            rhs.wf(),
        ensures
            r.wf(),
            r@ == self@.mul(rhs@),
    {
        let aa = self.0[0].mul(rhs.0[0]);
        let bb = self.0[1].mul(rhs.0[1]);
        let o = rhs.0[0].add(rhs.0[1]);
        let c1 = self.0[0].add(self.0[1]);
        let c1 = c1.mul(o);
        let c1 = c1.sub(aa);
        let c1 = c1.sub(bb);
        let c0 = bb.mul_by_nonres();
        let c0 = aa.add(c0);
        proof {
            lemma_mul12(self@, rhs@);
        }
        Self([c0, c1])
    }

    pub fn mul_assign(&mut self, rhs: Self)
        requires
            old(self).wf(),
            rhs.wf(),
        ensures
            final(self).wf(),
            final(self)@ == old(self)@.mul(rhs@),
    {
        *self = self.mul(rhs);
    }

    /// The square, by complex squaring: two products in Fq6.
    pub fn square(self) -> (r: Self)
        requires
            self.wf(),
        ensures
            r.wf(),
            r@ == self@.square(),
    {
        let ab = self.0[0].mul(self.0[1]);
        let s = self.0[0].add(self.0[1]);
        let t = self.0[0].add(self.0[1].mul_by_nonres());
        let re = s.mul(t).sub(ab).sub(ab.mul_by_nonres());
        let im = ab.double();
        proof {
            lemma_square12(self@);
        }
        Self([re, im])
    }

    pub fn square_assign(&mut self)
        requires
            old(self).wf(),
        ensures
            final(self).wf(),
            final(self)@ == old(self)@.square(),
    {
        *self = self.square()
    }

    /// The inverse, which is the conjugate over the norm `a0^2 - v a1^2`
    /// down to Fq6, and nothing for zero, the one element whose norm is
    /// zero.
    #[verifier::rlimit(50)]
    pub fn invert(self) -> (r: Option<Self>)
        requires
            self.wf(),
        ensures
            r is None <==> self@ == Fq12Value::zero(),
            r is None <==> !self@.invertible(),
            r matches Some(x) ==> x.wf() && x@ == self@.inv() && self@.mul(x@)
                == Fq12Value::one(),
    {
        let n = self.0[0].square().sub(self.0[1].square().mul_by_nonres());
        proof {
            lemma_inv12(self@);
            crate::model::final_exp::lemma_zero_norms();
            self.lemma_canonical();
            if self@ != Fq12Value::zero() {
                crate::model::field::lemma_field12(self@);
            }
            if self@.invertible() {
                crate::model::dodecic::lemma_inverse12(self@);
            }
        }
        match n.invert() {
            None => None,
            Some(t) => Some(Self([self.0[0].mul(t), self.0[1].mul(t.neg())])),
        }
    }

    /// The product with the sparse element `c0 + (c3 + c4 v) w`.
    pub fn mul_by_034(self, c0: Fq2, c3: Fq2, c4: Fq2) -> (r: Self)
        requires
            self.wf(),
            c0.wf(),
            c3.wf(),
            c4.wf(),
        ensures
            r.wf(),
            r@ == self@.mul_by_034(c0@, c3@, c4@),
    {
        let t0 = Fq6([self.0[0].0[0].mul(c0), self.0[0].0[1].mul(c0), self.0[0].0[2].mul(c0)]);
        let t1 = self.0[1].mul_by_01(c3, c4);
        let o = c0.add(c3);
        let t2 = self.0[0].add(self.0[1]).mul_by_01(o, c4);
        let t2 = t2.sub(t0);
        let b = t2.sub(t1);
        let t1 = t1.mul_by_nonres();
        let a = t0.add(t1);
        proof {
            lemma_mul_by_034(self@, c0@, c3@, c4@);
        }
        Self([a, b])
    }

    pub fn conjugate(self) -> (r: Self)
        requires
            self.wf(),
        ensures
            r.wf(),
            r@ == self@.conjugate(),
    {
        proof {
            self.lemma_canonical();
            lemma_reduce6(self@.c0);
        }
        Self([self.0[0], self.0[1].neg()])
    }

    /// The product with a line of G2 at the point `g1`: the line's first
    /// coefficient scaled by `g1.y`, its second by `g1.x`.
    pub fn untwist(self, coeffs: PairingCoeff, g1: G1Affine) -> (r: Self)
        requires
            self.wf(),
            coeffs.wf(),
            g1.wf(),
        ensures
            r.wf(),
            r@ == self@.untwist(coeffs.value(), g1.x@, g1.y@),
    {
        let c0 = Fq2([coeffs.0.0[0].mul(g1.y), coeffs.0.0[1].mul(g1.y)]);
        let c1 = Fq2([coeffs.1.0[0].mul(g1.x), coeffs.1.0[1].mul(g1.x)]);
        self.mul_by_034(c0, c1, coeffs.2)
    }

    /// The final exponentiation `f^((q^12 - 1) / r)`: the easy part by one
    /// inversion and two Frobenius maps, the hard part by three powers with
    /// exponent `u`. For zero, which has no inverse, the result is the
    /// neutral element.
    pub fn final_exp(self) -> (r: Gt)
        requires
            self.wf(),
        ensures
            r.wf(),
            r@ == self@.final_exp(),
            self@ != Fq12Value::zero() ==> r@ == self@.power(
                crate::model::exponents::final_exponent(),
            ),
            self@ == Fq12Value::zero() ==> r@ == Fq12Value::one(),
    {
        proof {
            self.lemma_canonical();
            crate::model::final_exp::lemma_zero_norms();
            if self@ != Fq12Value::zero() {
                crate::model::field::lemma_field12(self@);
                crate::model::homomorphism::lemma_final_exp_power(self@);
            }
        }
        let f = self;
        let f1 = f.conjugate();
        match f.invert() {
            None => Gt::identity(),
            Some(f2) => {
                let f2 = f2.mul(f1);
                let r = f2.frobenius_maps(2).mul(f2);

                let fp = r.frobenius_maps(1);
                let fp2 = r.frobenius_maps(2);
                let fp3 = fp2.frobenius_maps(1);

                let fu = cyclotomic_exp(r);
                let fu2 = cyclotomic_exp(fu);
                let fu3 = cyclotomic_exp(fu2);

                let y3 = fu.frobenius_maps(1).conjugate();

                let fu2p = fu2.frobenius_maps(1);
                let fu3p = fu3.frobenius_maps(1);

                let y2 = fu2.frobenius_maps(2);

                let y0 = fp.mul(fp2).mul(fp3);
                let y1 = r.conjugate();
                let y5 = fu2.conjugate();

                let y4 = fu.mul(fu2p).conjugate();

                let y6 = cyclotomic_square(fu3.mul(fu3p).conjugate()).mul(y4).mul(y5);

                let t1 = y3.mul(y5).mul(y6);
                let y6 = y6.mul(y2);
                let t1 = cyclotomic_square(cyclotomic_square(t1).mul(y6));

                let t0 = t1.mul(y1);
                let t1 = t1.mul(y0);
                let t0 = cyclotomic_square(t0).mul(t1);
                Gt(t0)
            },
        }
    }

    /// The value of the generator of the target group.
    pub open spec fn generator_value() -> Fq12Value {
        Fq12Value {
            c0: Fq6Value { c0: gt_generator(0), c1: gt_generator(1), c2: gt_generator(2) },
            c1: Fq6Value { c0: gt_generator(3), c1: gt_generator(4), c2: gt_generator(5) },
        }
    }

    /// The value of the pairing at the generators of G1 and G2, which
    /// generates the target group.
    pub fn generator() -> (r: Self)
        ensures
            r.wf(),
            r@ == Self::generator_value(),
    {
        proof {
            lemma_entry(GENERATOR[0], gt_generator(0));
            lemma_entry(GENERATOR[1], gt_generator(1));
            lemma_entry(GENERATOR[2], gt_generator(2));
            lemma_entry(GENERATOR[3], gt_generator(3));
            lemma_entry(GENERATOR[4], gt_generator(4));
            lemma_entry(GENERATOR[5], gt_generator(5));
        }
        Fq12(
            [
                Fq6(
                    [
                        coefficient(GENERATOR[0]),
                        coefficient(GENERATOR[1]),
                        coefficient(GENERATOR[2]),
                    ],
                ),
                Fq6(
                    [
                        coefficient(GENERATOR[3]),
                        coefficient(GENERATOR[4]),
                        coefficient(GENERATOR[5]),
                    ],
                ),
            ],
        )
    }

    /// The Frobenius map `x -> x^q`.
    pub fn frobenius_map(self) -> (r: Self)
        requires
            self.wf(),
        ensures
            r.wf(),
            r@ == self@.frobenius(1),
    {
        self.frobenius_maps(1)
    }

    /// The `power`-th Frobenius map.
    pub fn frobenius_maps(self, power: usize) -> (r: Self)
        requires
            self.wf(),
        ensures
            r.wf(),
            r@ == self@.frobenius(power as nat),
    {
        let c0 = self.0[0].frobenius_maps(power);
        let c1 = self.0[1].frobenius_maps(power);
        let k = coeff_c1(power);
        let c1 = Fq6([c1.0[0].mul(k), c1.0[1].mul(k), c1.0[2].mul(k)]);
        Self([c0, c1])
    }
}

/// The factor of the upper half under the `power`-th Frobenius map.
pub fn coeff_c1(power: usize) -> (r: Fq2)
    ensures
        r.wf(),
        r@ == frobenius_coeff_fq12_c1((power % 12) as int),
{
    proof {
        lemma_table_c1();
    }
    coefficient(FROBENIUS_COEFF_FQ12_C1[power % 12])
}

/// The table `FROBENIUS_COEFF_FQ12_C1` holds the values that the model names.
pub proof fn lemma_table_c1()
    ensures
        forall|k: int|
            0 <= k < 12 ==> {
                let e = #[trigger] FROBENIUS_COEFF_FQ12_C1[k];
                let x = Fq2([Fq(e[0]), Fq(e[1])]);
                x.wf() && x@ == frobenius_coeff_fq12_c1(k)
            },
{
    lemma_entry(FROBENIUS_COEFF_FQ12_C1[0], frobenius_coeff_fq12_c1(0));
    lemma_entry(FROBENIUS_COEFF_FQ12_C1[1], frobenius_coeff_fq12_c1(1));
    lemma_entry(FROBENIUS_COEFF_FQ12_C1[2], frobenius_coeff_fq12_c1(2));
    lemma_entry(FROBENIUS_COEFF_FQ12_C1[3], frobenius_coeff_fq12_c1(3));
    lemma_entry(FROBENIUS_COEFF_FQ12_C1[4], frobenius_coeff_fq12_c1(4));
    lemma_entry(FROBENIUS_COEFF_FQ12_C1[5], frobenius_coeff_fq12_c1(5));
    lemma_entry(FROBENIUS_COEFF_FQ12_C1[6], frobenius_coeff_fq12_c1(6));
    lemma_entry(FROBENIUS_COEFF_FQ12_C1[7], frobenius_coeff_fq12_c1(7));
    lemma_entry(FROBENIUS_COEFF_FQ12_C1[8], frobenius_coeff_fq12_c1(8));
    lemma_entry(FROBENIUS_COEFF_FQ12_C1[9], frobenius_coeff_fq12_c1(9));
    lemma_entry(FROBENIUS_COEFF_FQ12_C1[10], frobenius_coeff_fq12_c1(10));
    lemma_entry(FROBENIUS_COEFF_FQ12_C1[11], frobenius_coeff_fq12_c1(11));
}

/// The square of `a + b s` in Fq4 = Fq2[s]/(s^2 - xi).
fn fp4_square(a: Fq2, b: Fq2) -> (r: (Fq2, Fq2))
    requires
        a.wf(),
        b.wf(),
    ensures
        r.0.wf(),
        r.1.wf(),
        (r.0@, r.1@) == fp4_square_value(a@, b@),
{
    let t0 = a.square();
    let t1 = b.square();
    let t2 = t1.mul_by_nonres();
    let c0 = t2.add(t0);
    let t2 = a.add(b);
    let t2 = t2.square();
    let t2 = t2.sub(t0);
    let c1 = t2.sub(t1);

    (c0, c1)
}

/// The squaring of Granger and Scott, for elements of the cyclotomic
/// subgroup.
pub fn cyclotomic_square(f: Fq12) -> (r: Fq12)
    requires
        f.wf(),
    ensures
        r.wf(),
        r@ == f@.cyclotomic_square(),
{
    proof {
        reveal(Fq12Value::cyclotomic_square);
    }
    let z0 = f.0[0].0[0];
    let z4 = f.0[0].0[1];
    let z3 = f.0[0].0[2];
    let z2 = f.0[1].0[0];
    let z1 = f.0[1].0[1];
    let z5 = f.0[1].0[2];

    let (t0, t1) = fp4_square(z0, z1);

    // For A
    let z0 = t0.sub(z0);
    let z0 = z0.double().add(t0);

    let z1 = t1.add(z1);
    let z1 = z1.double().add(t1);

    let (t0, t1) = fp4_square(z2, z3);
    let (t2, t3) = fp4_square(z4, z5);

    // For C
    let z4 = t0.sub(z4);
    let z4 = z4.double().add(t0);

    let z5 = t1.add(z5);
    let z5 = z5.double().add(t1);

    // For B
    let t0 = t3.mul_by_nonres();
    let z2 = t0.add(z2);
    let z2 = z2.double().add(t0);

    let z3 = t2.sub(z3);
    let z3 = z3.double().add(t2);

    Fq12([Fq6([z0, z4, z3]), Fq6([z2, z1, z5])])
}

/// The power with the curve parameter `u` as exponent, by cyclotomic
/// squaring and multiplying from the highest bit of `u` down.
pub fn cyclotomic_exp(f: Fq12) -> (r: Fq12)
    requires
        f.wf(),
    ensures
        r.wf(),
        r@ == f@.cyclotomic_exp(),
{
    let mut res = Fq12::one();
    let mut i: u32 = 64;
    proof {
        vstd::arithmetic::power2::lemma2_to64();
        vstd::arithmetic::div_mod::lemma_basic_div(BN_X as int, pow2(64) as int);
    }
    while i > 0
        invariant
            i <= 64,
            f.wf(),
            res.wf(),
            res@ == f@.cyclotomic_pow(BN_X as nat / pow2(i as nat)),
        decreases i,
    {
        i = i - 1;
        let ghost e = BN_X as nat / pow2((i + 1) as nat);
        let ghost bit = ((BN_X >> i) & 1) as nat;
        proof {
            crate::limbs::lemma_next_bit(BN_X, i, 0);
            vstd::arithmetic::power2::lemma_pow2_pos((i + 1) as nat);
            vstd::arithmetic::power2::lemma_pow2_pos(i as nat);
            vstd::arithmetic::div_mod::lemma_div_pos_is_pos(
                BN_X as int,
                pow2((i + 1) as nat) as int,
            );
            vstd::arithmetic::div_mod::lemma_div_pos_is_pos(BN_X as int, pow2(i as nat) as int);
            assert(0int * pow2((64 - i) as nat) == 0);
            assert(0int * pow2((63 - i) as nat) == 0);
            assert(BN_X as nat / pow2(i as nat) == 2 * e + bit);
            crate::model::final_exp::lemma_cyclotomic_step(f@, e, bit);
        }
        res = cyclotomic_square(res);
        if ((BN_X >> i) & 1) == 1 {
            res = res.mul(f);
        }
    }
    proof {
        vstd::arithmetic::power2::lemma2_to64();
        vstd::arithmetic::div_mod::lemma_div_basics(BN_X as int);
    }
    res
}

} // verus!
