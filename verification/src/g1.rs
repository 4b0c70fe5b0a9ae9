//! The group G1: points of the curve `y^2 = x^3 + 3` over Fq, in affine form.

use crate::fq::Fq;
use crate::model::base::fq_neg;
use vstd::prelude::*;

verus! {

/// The first coordinate of the generator: 1, in Montgomery form.
pub const G1_GENERATOR_X: [u64; 4] = [
    0xd35d438dc58f0d9d,
    0x0a78eb28f5c70b3d,
    0x666ea36f7879462c,
    0x0e0a77c19a07df2f,
];

/// The second coordinate of the generator: 2, in Montgomery form.
pub const G1_GENERATOR_Y: [u64; 4] = [
    0xa6ba871b8b1e1b3a,
    0x14f1d651eb8e167b,
    0xccdd46def0f28c58,
    0x1c14ef83340fbe5e,
];

/// A point of G1: the point at infinity, or the point `(x, y)`.
#[derive(Clone, Copy, Debug)]
pub struct G1Affine {
    pub x: Fq,
    pub y: Fq,
    pub is_infinity: bool,
}

impl G1Affine {
    /// Both coordinates are reduced.
    pub open spec fn wf(&self) -> bool {
        self.x.wf() && self.y.wf()
    }

    /// The point `(x, y)`. That it lies on the curve is the caller's matter.
    pub fn new(x: Fq, y: Fq) -> (r: Self)
        ensures
            r == (G1Affine { x, y, is_infinity: false }),
    {
        Self { x, y, is_infinity: false }
    }

    /// The point at infinity, the neutral element.
    pub fn identity() -> (r: Self)
        ensures
            r.wf(),
            r.is_infinity,
    {
        Self { x: Fq::zero(), y: Fq::one(), is_infinity: true }
    }

    pub fn is_identity(self) -> (b: bool)
        ensures
            b == self.is_infinity,
    {
        self.is_infinity
    }

    /// The generator `(1, 2)`.
    pub fn generator() -> (r: Self)
        ensures
            r.wf(),
            !r.is_infinity,
            r.x@ == 1,
            r.y@ == 2,
    {
        proof {
            lemma_generator();
        }
        Self { x: Fq(G1_GENERATOR_X), y: Fq(G1_GENERATOR_Y), is_infinity: false }
    }

    /// The opposite point `(x, -y)`.
    pub fn neg(self) -> (r: Self)
        requires
            self.wf(),
        ensures
            r.wf(),
            r.x == self.x,
            r.y@ == fq_neg(self.y@),
            r.is_infinity == self.is_infinity,
    {
        Self { x: self.x, y: self.y.neg(), is_infinity: self.is_infinity }
    }
}

/// The two constants are the Montgomery forms of 1 and 2.
proof fn lemma_generator()
    ensures
        Fq(G1_GENERATOR_X).wf(),
        Fq(G1_GENERATOR_Y).wf(),
        Fq(G1_GENERATOR_X)@ == 1,
        Fq(G1_GENERATOR_Y)@ == 2,
{
    Fq::lemma_from_limbs(G1_GENERATOR_X, 1);
    Fq::lemma_from_limbs(G1_GENERATOR_Y, 2);
}

} // verus!
