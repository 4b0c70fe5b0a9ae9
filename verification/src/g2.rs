//! The group G2: points of the twist over Fq2, and the lines that the Miller
//! loop takes from one point, which are computed once.

use crate::fq2::Fq2;
use crate::fq6::{coeff_c1, coefficient, lemma_entry};
use crate::model::curve::{
    lemma_lines_before, lemma_lines_len, line_count, lines, lines_state, naf, AffineValue,
    LineValue, ProjectiveValue,
};
use crate::model::jacobian::{
    added_closed, chord_closed, doubled_closed, lemma_added_closed, lemma_chord_closed,
    lemma_doubled_closed, lemma_tangent_closed, tangent_closed,
};
use crate::model::quadratic::Fq2Value;
use crate::params::{g2_generator, xi_to_q_minus_1_over_2, SIX_U_PLUS_2_NAF, XI_TO_Q_MINUS_1_OVER_2};
use vstd::prelude::*;

verus! {

/// The coordinates of the generator, in Montgomery form.
pub const G2_GENERATOR_X: [[u64; 4]; 2] = [
    [0x8e83b5d102bc2026, 0xdceb1935497b0172, 0xfbb8264797811adf, 0x19573841af96503b],
    [0xafb4737da84c6140, 0x6043dd5a5802d8c4, 0x09e950fc52a02f86, 0x14fef0833aea7b6b],
];

pub const G2_GENERATOR_Y: [[u64; 4]; 2] = [
    [0x619dfa9d886be9f6, 0xfe7fd297f59e9b78, 0xff9e1a62231b7dfe, 0x28fd7eebae9e4206],
    [0x64095b56c71856ee, 0xdc57f922327d3cbb, 0x55f935be33351076, 0x0da4a0e693fd6482],
];

/// A point of G2: the point at infinity, or the point `(x, y)` of the twist
/// `y^2 = x^3 + 3 / (9 + u)`.
#[derive(Clone, Copy, Debug)]
pub struct G2Affine {
    pub x: Fq2,
    pub y: Fq2,
    pub is_infinity: bool,
}

impl G2Affine {
    /// Both coordinates are reduced.
    pub open spec fn wf(&self) -> bool {
        self.x.wf() && self.y.wf()
    }

    /// The coordinates, as a point of the model.
    pub open spec fn value(&self) -> AffineValue {
        AffineValue { x: self.x@, y: self.y@ }
    }

    /// The point `(x, y)`. That it lies on the twist is the caller's matter.
    pub fn new(x: Fq2, y: Fq2) -> (r: Self)
        ensures
            r == (G2Affine { x, y, is_infinity: false }),
    {
        Self { x, y, is_infinity: false }
    }

    /// The point at infinity, the neutral element.
    pub fn identity() -> (r: Self)
        ensures
            r.wf(),
            r.is_infinity,
    {
        Self { x: Fq2::zero(), y: Fq2::one(), is_infinity: true }
    }

    /// The generator.
    pub fn generator() -> (r: Self)
        ensures
            r.wf(),
            !r.is_infinity,
            r.value() == (AffineValue { x: g2_generator().0, y: g2_generator().1 }),
    {
        proof {
            lemma_entry(G2_GENERATOR_X, g2_generator().0);
            lemma_entry(G2_GENERATOR_Y, g2_generator().1);
        }
        Self {
            x: coefficient(G2_GENERATOR_X),
            y: coefficient(G2_GENERATOR_Y),
            is_infinity: false,
        }
    }

    pub fn is_identity(self) -> (b: bool)
        ensures
            b == self.is_infinity,
    {
        self.is_infinity
    }

    /// The opposite point `(x, -y)`.
    pub fn neg(self) -> (r: Self)
        requires
            self.wf(),
        ensures
            r.wf(),
            r.value() == self.value().neg(),
            r.is_infinity == self.is_infinity,
    {
        Self { x: self.x, y: self.y.neg(), is_infinity: self.is_infinity }
    }
}

/// A point of the twist in Jacobian coordinates, which the computation of
/// the lines runs through.
pub struct G2Projective {
    pub x: Fq2,
    pub y: Fq2,
    pub z: Fq2,
}

impl G2Projective {
    /// All coordinates are reduced.
    pub open spec fn wf(&self) -> bool {
        self.x.wf() && self.y.wf() && self.z.wf()
    }

    /// The coordinates, as a point of the model.
    pub open spec fn value(&self) -> ProjectiveValue {
        ProjectiveValue { x: self.x@, y: self.y@, z: self.z@ }
    }

    /// The same point in Jacobian coordinates; `(0, 1, 0)` for the point at
    /// infinity.
    pub fn from(affine: G2Affine) -> (r: Self)
        requires
            affine.wf(),
        ensures
            r.wf(),
            affine.is_infinity ==> r.value() == (ProjectiveValue {
                x: Fq2Value::zero(),
                y: Fq2Value::one(),
                z: Fq2Value::zero(),
            }),
            !affine.is_infinity ==> r.value() == affine.value().projective(),
    {
        if affine.is_identity() {
            Self { x: Fq2::zero(), y: Fq2::one(), z: Fq2::zero() }
        } else {
            Self { x: affine.x, y: affine.y, z: Fq2::one() }
        }
    }

    /// Doubles the point in place and returns the tangent at the point as it
    /// was. With `X`, `Y`, `Z` the coordinates before the call, the double is
    /// `(9 X^4 - 8 X Y^2, 3 X^2 (4 X Y^2 - X3) - 8 Y^4, 2 Y Z)` and the tangent
    /// has the coefficients `4 Y Z^3`, `-6 X^2 Z^2` and `6 X^3 - 4 Y^2`; that
    /// this is the tangent rule on the affine points is
    /// `model::chord_tangent::lemma_doubling_step`.
    pub fn double_eval(&mut self) -> (c: PairingCoeff)
        requires
            old(self).wf(),
        ensures
            final(self).wf(),
            final(self).value() == old(self).value().doubled(),
            final(self).value() == doubled_closed(old(self).value()),
            c.wf(),
            c.value() == old(self).value().tangent(),
            c.value() == tangent_closed(old(self).value()),
    {
        proof {
            reveal(ProjectiveValue::doubled);
            reveal(ProjectiveValue::tangent);
            lemma_doubled_closed(old(self).value());
            lemma_tangent_closed(old(self).value());
        }
        let tmp0 = self.x.square();
        let tmp1 = self.y.square();
        let tmp2 = tmp1.square();
        let tmp3 = tmp1.add(self.x).square().sub(tmp0).sub(tmp2);
        let tmp3 = tmp3.double();
        let tmp4 = tmp0.double().add(tmp0);
        let tmp6 = self.x.add(tmp4);
        let tmp5 = tmp4.square();
        let zsquared = self.z.square();
        let x3 = tmp5.sub(tmp3.double());
        let z3 = self.z.add(self.y).square().sub(tmp1).sub(zsquared);
        let y3 = tmp3.sub(x3).mul(tmp4).sub(tmp2.double().double().double());
        self.x = x3;
        self.z = z3;
        self.y = y3;
        let tmp3 = tmp4.mul(zsquared).double().neg();
        let tmp6 = tmp6.square().sub(tmp0).sub(tmp5);
        let tmp1 = tmp1.double().double();
        let tmp6 = tmp6.sub(tmp1);
        let tmp0 = z3.mul(zsquared);
        let tmp0 = tmp0.double();

        PairingCoeff(tmp0, tmp3, tmp6)
    }

    /// Adds `rhs` to the point in place and returns the chord through the
    /// point as it was and `rhs`. With `H = Z^2 x - X` and `R = 2 (y Z^3 - Y)`
    /// the sum is `(R^2 - 4 H^3 - 8 X H^2, (4 X H^2 - X3) R - 8 Y H^3, 2 Z H)`
    /// and the chord has the coefficients `4 Z H`, `-2 R` and
    /// `2 (R x - y Z3)`; that this is the chord rule on the affine points is
    /// `model::chord_tangent::lemma_addition_step`.
    pub fn add_eval(&mut self, rhs: G2Affine) -> (c: PairingCoeff)
        requires
            old(self).wf(),
            rhs.wf(),
        ensures
            final(self).wf(),
            final(self).value() == old(self).value().added(rhs.value()),
            final(self).value() == added_closed(old(self).value(), rhs.value()),
            c.wf(),
            c.value() == old(self).value().chord(rhs.value()),
            c.value() == chord_closed(old(self).value(), rhs.value()),
    {
        proof {
            reveal(ProjectiveValue::added);
            reveal(ProjectiveValue::chord);
            lemma_added_closed(old(self).value(), rhs.value());
            lemma_chord_closed(old(self).value(), rhs.value());
        }
        let zsquared = self.z.square();
        let ysquared = rhs.y.square();
        let t0 = zsquared.mul(rhs.x);
        let t1 = rhs.y.add(self.z).square().sub(ysquared).sub(zsquared).mul(zsquared);
        let t2 = t0.sub(self.x);
        let t3 = t2.square();
        let t4 = t3.double().double();
        let t5 = t4.mul(t2);
        let t6 = t1.sub(self.y.double());
        let t9 = t6.mul(rhs.x);
        let t7 = t4.mul(self.x);
        let x3 = t6.square().sub(t5).sub(t7.double());
        let z3 = self.z.add(t2).square().sub(zsquared).sub(t3);
        let t10 = rhs.y.add(z3);
        let t8 = t7.sub(x3).mul(t6);
        let t0 = self.y.mul(t5);
        let y3 = t8.sub(t0.double());
        self.x = x3;
        self.z = z3;
        self.y = y3;
        let t10 = t10.square().sub(ysquared);
        let ztsquared = z3.square();
        let t10 = t10.sub(ztsquared);
        let t9 = t9.double().sub(t10);
        let t10 = z3.double();
        let t1 = t6.double().neg();

        PairingCoeff(t10, t1, t9)
    }
}

/// The coefficients `(c0, c3, c4)` of a line.
#[derive(Clone, Copy, Debug)]
pub struct PairingCoeff(pub Fq2, pub Fq2, pub Fq2);

impl PartialEq for PairingCoeff {
    fn eq(&self, other: &Self) -> (r: bool) {
        self.0 == other.0 && self.1 == other.1 && self.2 == other.2
    }
}

impl vstd::std_specs::cmp::PartialEqSpecImpl for PairingCoeff {
    open spec fn obeys_eq_spec() -> bool {
        true
    }

    open spec fn eq_spec(&self, other: &Self) -> bool {
        self.0.same(&other.0) && self.1.same(&other.1) && self.2.same(&other.2)
    }
}

impl Eq for PairingCoeff {

}

impl PairingCoeff {
    /// All coefficients are reduced.
    pub open spec fn wf(&self) -> bool {
        self.0.wf() && self.1.wf() && self.2.wf()
    }

    /// The coefficients, as a line of the model.
    pub open spec fn value(&self) -> LineValue {
        LineValue { c0: self.0@, c3: self.1@, c4: self.2@ }
    }
}

/// The lines that a list of coefficients stands for.
pub open spec fn line_values(s: Seq<PairingCoeff>) -> Seq<LineValue> {
    Seq::new(s.len(), |i: int| s[i].value())
}

/// A point of G2 as the Miller loop takes it: the coefficients of its lines,
/// in the order in which the loop uses them.
pub struct G2PairingAffine {
    pub coeffs: Vec<PairingCoeff>,
    pub is_infinity: bool,
}

impl G2PairingAffine {
    /// The point at infinity has no lines; another point has as many as the
    /// loop uses, all reduced.
    pub open spec fn wf(&self) -> bool {
        &&& self.is_infinity ==> self.coeffs@.len() == 0
        &&& !self.is_infinity ==> self.coeffs@.len() == line_count()
        &&& forall|i: int| 0 <= i < self.coeffs@.len() ==> (#[trigger] self.coeffs@[i]).wf()
    }

    /// The lines of the point.
    pub open spec fn lines(&self) -> Seq<LineValue> {
        line_values(self.coeffs@)
    }

    pub fn is_identity(&self) -> (b: bool)
        ensures
            b == self.is_infinity,
    {
        self.is_infinity
    }

    /// The lines of the point `g2`: no line for the point at infinity;
    /// else the tangents and chords of the loop over the digits of `6u + 2`,
    /// then the chords to the two Frobenius images of the point.
    pub fn from(g2: G2Affine) -> (r: Self)
        requires
            g2.wf(),
        ensures
            r.wf(),
            r.is_infinity == g2.is_infinity,
            !g2.is_infinity ==> r.lines() == lines(g2.value()),
    {
        if g2.is_identity() {
            Self { coeffs: Vec::new(), is_infinity: true }
        } else {
            let mut coeffs: Vec<PairingCoeff> = Vec::with_capacity(91);
            let mut g2_projective = G2Projective::from(g2);
            let neg = g2.neg();
            let ghost p = g2.value();
            proof {
                assert(line_values(coeffs@) =~= Seq::empty());
            }

            let mut i: usize = 64;
            while i >= 1
                invariant
                    i <= 64,
                    g2.wf(),
                    neg.wf(),
                    p == g2.value(),
                    neg.value() == p.neg(),
                    g2_projective.wf(),
                    forall|k: int| 0 <= k < coeffs@.len() ==> (#[trigger] coeffs@[k]).wf(),
                    (g2_projective.value(), line_values(coeffs@)) == lines_state(
                        p,
                        (64 - i) as nat,
                    ),
                decreases i,
            {
                let ghost before = coeffs@;
                let ghost point = g2_projective.value();
                let c = g2_projective.double_eval();
                coeffs.push(c);
                proof {
                    lemma_push(before, c);
                }
                let x = SIX_U_PLUS_2_NAF[i - 1];
                if x == 1 {
                    let ghost before = coeffs@;
                    let c = g2_projective.add_eval(g2);
                    coeffs.push(c);
                    proof {
                        lemma_push(before, c);
                    }
                } else if x == -1 {
                    let ghost before = coeffs@;
                    let c = g2_projective.add_eval(neg);
                    coeffs.push(c);
                    proof {
                        lemma_push(before, c);
                    }
                }
                proof {
                    assert(naf(64 - (65 - i)) == x as int);
                    assert(lines_state(p, (65 - i) as nat) == (
                        g2_projective.value(),
                        line_values(coeffs@),
                    ));
                }
                i = i - 1;
            }

            let q1 = G2Affine {
                x: g2.x.conjugate().mul(coeff_c1(1)),
                y: g2.y.conjugate().mul(xi_power()),
                is_infinity: false,
            };
            let ghost before = coeffs@;
            let c = g2_projective.add_eval(q1);
            coeffs.push(c);
            proof {
                lemma_push(before, c);
            }

            let minusq2 = G2Affine { x: g2.x.mul(coeff_c1(2)), y: g2.y, is_infinity: false };
            let ghost before = coeffs@;
            let c = g2_projective.add_eval(minusq2);
            coeffs.push(c);
            proof {
                lemma_push(before, c);
                lemma_lines_len(p, 64);
                lemma_lines_before();
            }

            Self { coeffs, is_infinity: false }
        }
    }
}

/// One more coefficient at the end of a list is one more line at the end
/// of its lines.
proof fn lemma_push(s: Seq<PairingCoeff>, c: PairingCoeff)
    ensures
        line_values(s.push(c)) == line_values(s).push(c.value()),
{
    assert(line_values(s.push(c)) =~= line_values(s).push(c.value()));
}

/// `xi^((q - 1) / 2)` as an element.
fn xi_power() -> (r: Fq2)
    ensures
        r.wf(),
        r@ == xi_to_q_minus_1_over_2(),
{
    proof {
        lemma_entry(XI_TO_Q_MINUS_1_OVER_2, xi_to_q_minus_1_over_2());
    }
    coefficient(XI_TO_Q_MINUS_1_OVER_2)
}

} // verus!
