//! The twist of the curve over Fq2, as far as the pairing needs it: points in
//! Jacobian coordinates, the doubling and addition steps with the
//! coefficients of their lines, and the list of lines that one point gives.

use crate::model::quadratic::Fq2Value;
use crate::params::{frobenius_coeff_fq6_c1, xi_to_q_minus_1_over_2, SIX_U_PLUS_2_NAF};
use vstd::prelude::*;

verus! {

/// The coefficients `c0`, `c3` and `c4` of a line, which stand for the
/// element `c0 + (c3 + c4 v) w` of Fq12 once `c0` and `c3` are scaled by the
/// coordinates of the point of G1.
pub struct LineValue {
    pub c0: Fq2Value,
    pub c3: Fq2Value,
    pub c4: Fq2Value,
}

/// A point of the twist other than the point at infinity.
pub struct AffineValue {
    pub x: Fq2Value,
    pub y: Fq2Value,
}

/// A point of the twist in Jacobian coordinates: `(x / z^2, y / z^3)`.
pub struct ProjectiveValue {
    pub x: Fq2Value,
    pub y: Fq2Value,
    pub z: Fq2Value,
}

/// A digit of the loop scalar `6u + 2`.
pub open spec fn naf(i: int) -> int {
    SIX_U_PLUS_2_NAF[i] as int
}

/// The number of doubling steps of the loop.
pub open spec fn loop_steps() -> nat {
    64
}

/// The number of lines that a point gives: one for each doubling, one for
/// each digit that is not zero, and two at the end.
pub open spec fn line_count() -> nat {
    91
}

/// The number of lines of the first `n` steps, which take the digits
/// `63, 62, ..., 64 - n`.
pub open spec fn lines_before(n: nat) -> nat
    decreases n,
{
    if n == 0 {
        0
    } else if naf(64 - n) == 1 || naf(64 - n) == -1 {
        lines_before((n - 1) as nat) + 2
    } else {
        lines_before((n - 1) as nat) + 1
    }
}

impl AffineValue {
    /// The opposite point.
    pub open spec fn neg(self) -> Self {
        AffineValue { x: self.x, y: self.y.neg() }
    }

    /// The image under the Frobenius map, brought back to the twist.
    pub open spec fn frobenius(self) -> Self {
        AffineValue {
            x: self.x.conjugate().mul(frobenius_coeff_fq6_c1(1)),
            y: self.y.conjugate().mul(xi_to_q_minus_1_over_2()),
        }
    }

    /// The opposite of the image under the square of the Frobenius map,
    /// brought back to the twist.
    pub open spec fn minus_frobenius2(self) -> Self {
        AffineValue { x: self.x.mul(frobenius_coeff_fq6_c1(2)), y: self.y }
    }

    /// The same point in Jacobian coordinates.
    pub open spec fn projective(self) -> ProjectiveValue {
        ProjectiveValue { x: self.x, y: self.y, z: Fq2Value::one() }
    }
}

impl ProjectiveValue {
    /// Twice the point.
    #[verifier::opaque]
    pub open spec fn doubled(self) -> Self {
        let a = self.x.square();
        let b = self.y.square();
        let c = b.square();
        let d = b.add(self.x).square().sub(a).sub(c).double();
        let e = a.double().add(a);
        let x3 = e.square().sub(d.double());
        let z3 = self.z.add(self.y).square().sub(b).sub(self.z.square());
        let y3 = d.sub(x3).mul(e).sub(c.double().double().double());
        ProjectiveValue { x: x3, y: y3, z: z3 }
    }

    /// The tangent at the point.
    #[verifier::opaque]
    pub open spec fn tangent(self) -> LineValue {
        let a = self.x.square();
        let b = self.y.square();
        let e = a.double().add(a);
        let zz = self.z.square();
        LineValue {
            c0: self.doubled().z.mul(zz).double(),
            c3: e.mul(zz).double().neg(),
            c4: self.x.add(e).square().sub(a).sub(e.square()).sub(b.double().double()),
        }
    }

    /// The slope numerator `t6` and the difference `t2` of the addition step,
    /// which both the sum and the chord are made of.
    pub open spec fn slope(self, p: AffineValue) -> (Fq2Value, Fq2Value) {
        let zz = self.z.square();
        let yy = p.y.square();
        let t1 = p.y.add(self.z).square().sub(yy).sub(zz).mul(zz);
        (zz.mul(p.x).sub(self.x), t1.sub(self.y.double()))
    }

    /// The sum of the point and `p`.
    #[verifier::opaque]
    pub open spec fn added(self, p: AffineValue) -> Self {
        let (t2, t6) = self.slope(p);
        let t3 = t2.square();
        let t4 = t3.double().double();
        let t5 = t4.mul(t2);
        let t7 = t4.mul(self.x);
        let x3 = t6.square().sub(t5).sub(t7.double());
        let z3 = self.z.add(t2).square().sub(self.z.square()).sub(t3);
        let y3 = t7.sub(x3).mul(t6).sub(self.y.mul(t5).double());
        ProjectiveValue { x: x3, y: y3, z: z3 }
    }

    /// The chord through the point and `p`.
    #[verifier::opaque]
    pub open spec fn chord(self, p: AffineValue) -> LineValue {
        let (t2, t6) = self.slope(p);
        let z3 = self.added(p).z;
        let t10 = p.y.add(z3).square().sub(p.y.square()).sub(z3.square());
        LineValue { c0: z3.double(), c3: t6.double().neg(), c4: t6.mul(p.x).double().sub(t10) }
    }
}

/// The running point and the lines so far, after the first `n` steps of the
/// loop for the point `p`: each step doubles, and adds `p` or its opposite
/// where the digit is 1 or -1.
pub open spec fn lines_state(p: AffineValue, n: nat) -> (ProjectiveValue, Seq<LineValue>)
    decreases n,
{
    if n == 0 {
        (p.projective(), Seq::empty())
    } else {
        let (r, s) = lines_state(p, (n - 1) as nat);
        let r1 = r.doubled();
        let s1 = s.push(r.tangent());
        if naf(64 - n) == 1 {
            (r1.added(p), s1.push(r1.chord(p)))
        } else if naf(64 - n) == -1 {
            (r1.added(p.neg()), s1.push(r1.chord(p.neg())))
        } else {
            (r1, s1)
        }
    }
}

/// All the lines of the point `p`: those of the loop, then the chords to the
/// two Frobenius images.
pub open spec fn lines(p: AffineValue) -> Seq<LineValue> {
    let (r, s) = lines_state(p, loop_steps());
    let q1 = p.frobenius();
    let q2 = p.minus_frobenius2();
    s.push(r.chord(q1)).push(r.added(q1).chord(q2))
}

/// The loop gives 89 lines.
pub proof fn lemma_lines_before()
    ensures
        lines_before(64) == 89,
        forall|n: nat| n <= 64 ==> #[trigger] lines_before(n) <= 89,
{
    reveal_with_fuel(lines_before, 9);
    assert(lines_before(8) == 12);
    assert(lines_before(16) == 23);
    assert(lines_before(24) == 33);
    assert(lines_before(32) == 44);
    assert(lines_before(40) == 55);
    assert(lines_before(48) == 67);
    assert(lines_before(56) == 78);
    assert(lines_before(64) == 89);
    assert forall|n: nat| n <= 64 implies #[trigger] lines_before(n) <= 89 by {
        lemma_lines_grow(n, 64);
    }
}

/// The count of lines grows by one at least with each step.
pub proof fn lemma_lines_grow(n: nat, m: nat)
    requires
        n <= m,
    ensures
        lines_before(n) + (m - n) <= lines_before(m),
    decreases m,
{
    if n < m {
        lemma_lines_grow(n, (m - 1) as nat);
    }
}

/// The number of lines after `n` steps.
pub proof fn lemma_lines_len(p: AffineValue, n: nat)
    ensures
        lines_state(p, n).1.len() == lines_before(n),
    decreases n,
{
    if n > 0 {
        lemma_lines_len(p, (n - 1) as nat);
        let (r, s) = lines_state(p, (n - 1) as nat);
        let r1 = r.doubled();
        let s1 = s.push(r.tangent());
        assert(s1.len() == s.len() + 1);
        if naf(64 - n) == 1 {
            assert(lines_state(p, n).1 == s1.push(r1.chord(p)));
        } else if naf(64 - n) == -1 {
            assert(lines_state(p, n).1 == s1.push(r1.chord(p.neg())));
        } else {
            assert(lines_state(p, n).1 == s1);
        }
    }
}

} // verus!
