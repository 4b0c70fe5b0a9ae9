//! The lines of the opposite of a point of G2 are the lines of the point
//! with the first coefficient negated, which are the lines of the point at
//! the opposite point of G1.

use crate::model::curve::{lines, lines_state, naf, AffineValue, LineValue, ProjectiveValue};
use crate::model::quadratic::{
    lemma_canonical_equal2, lemma_cross2, lemma_eqv_minus2, lemma_eqv_plus2, lemma_eqv_times2,
    lemma_eqv_unary2, lemma_reduce2, lemma_times_distributes2, Fq2Value,
};
use crate::model::base::{fq_neg, q};
use crate::model::dodecic::Fq12Value;
use crate::model::opposite::{lemma_state_step, lemma_untwist_one, line_at, opposite, step};
use crate::model::pairing::{miller_loop, miller_state, untwist_all, PairValue};
use vstd::prelude::*;

verus! {

/// The line with the first coefficient negated.
pub open spec fn opposite_line(l: LineValue) -> LineValue {
    LineValue { c0: l.c0.neg(), c3: l.c3, c4: l.c4 }
}

/// The same point of the twist with the last coordinate negated, which
/// stands for the opposite point.
pub open spec fn flipped(r: ProjectiveValue) -> ProjectiveValue {
    ProjectiveValue { x: r.x, y: r.y, z: r.z.neg() }
}

/// The opposite of an element has the same square, and the sum of two
/// opposites has the same square as the sum.
#[verifier::rlimit(50)]
proof fn lemma_squares(a: Fq2Value, b: Fq2Value)
    ensures
        a.neg().square() == a.square(),
        a.neg().add(b.neg()).square() == a.add(b).square(),
        a.neg().neg() == a.reduce(),
{
    lemma_reduce2(a.negated());
    lemma_reduce2(b.negated());
    lemma_eqv_times2(a.neg(), a.neg(), a.negated(), a.negated());
    vstd::arithmetic::mul::lemma_mul_unary_negation(a.c0, a.c0);
    vstd::arithmetic::mul::lemma_mul_unary_negation(a.c1, a.c1);
    vstd::arithmetic::mul::lemma_mul_unary_negation(a.c0, a.c1);
    vstd::arithmetic::mul::lemma_mul_unary_negation(a.c1, a.c0);
    vstd::arithmetic::mul::lemma_mul_unary_negation(a.c0, -a.c0);
    vstd::arithmetic::mul::lemma_mul_unary_negation(a.c1, -a.c1);
    vstd::arithmetic::mul::lemma_mul_unary_negation(a.c0, -a.c1);
    vstd::arithmetic::mul::lemma_mul_unary_negation(a.c1, -a.c0);
    assert(a.negated().times(a.negated()) == a.times(a));
    lemma_reduce2(a.neg().times(a.neg()));
    lemma_reduce2(a.times(a));
    lemma_canonical_equal2(a.neg().square(), a.square());
    // the sum
    let s = a.add(b);
    let t = a.neg().add(b.neg());
    lemma_reduce2(a.plus(b));
    lemma_eqv_plus2(a.neg(), b.neg(), a.negated(), b.negated());
    lemma_eqv_unary2(s, a.plus(b));
    assert(a.negated().plus(b.negated()) == a.plus(b).negated());
    lemma_reduce2(s.negated());
    lemma_canonical_equal2(t, s.neg());
    lemma_squares_of(s);
    // twice the opposite
    lemma_eqv_unary2(a.neg(), a.negated());
    assert(a.negated().negated() == a);
    lemma_reduce2(a.neg().negated());
    lemma_reduce2(a);
    lemma_canonical_equal2(a.neg().neg(), a.reduce());
}

/// The opposite of an element has the same square.
proof fn lemma_squares_of(a: Fq2Value)
    ensures
        a.neg().square() == a.square(),
{
    lemma_reduce2(a.negated());
    lemma_eqv_times2(a.neg(), a.neg(), a.negated(), a.negated());
    vstd::arithmetic::mul::lemma_mul_unary_negation(a.c0, a.c0);
    vstd::arithmetic::mul::lemma_mul_unary_negation(a.c1, a.c1);
    vstd::arithmetic::mul::lemma_mul_unary_negation(a.c0, a.c1);
    vstd::arithmetic::mul::lemma_mul_unary_negation(a.c1, a.c0);
    vstd::arithmetic::mul::lemma_mul_unary_negation(a.c0, -a.c0);
    vstd::arithmetic::mul::lemma_mul_unary_negation(a.c1, -a.c1);
    vstd::arithmetic::mul::lemma_mul_unary_negation(a.c0, -a.c1);
    vstd::arithmetic::mul::lemma_mul_unary_negation(a.c1, -a.c0);
    assert(a.negated().times(a.negated()) == a.times(a));
    lemma_reduce2(a.neg().times(a.neg()));
    lemma_reduce2(a.times(a));
    lemma_canonical_equal2(a.neg().square(), a.square());
}

/// `(z + y)^2 - y^2 - z^2` is twice the product, and changes its sign with
/// the sign of one of the two.
#[verifier::rlimit(50)]
proof fn lemma_twice_product(y: Fq2Value, z: Fq2Value)
    ensures
        z.add(y).square().sub(y.square()).sub(z.square()).eqv(y.times(z).plus(y.times(z))),
        z.neg().add(y).square().sub(y.square()).sub(z.neg().square()) == z.add(y).square().sub(
            y.square(),
        ).sub(z.square()).neg(),
        z.add(y.neg()).square().sub(y.neg().square()).sub(z.square()) == z.add(y).square().sub(
            y.square(),
        ).sub(z.square()).neg(),
{
    lemma_twice(y, z);
    lemma_twice(y, z.neg());
    lemma_twice(y.neg(), z);
    let p = y.times(z).plus(y.times(z));
    lemma_reduce2(z.negated());
    lemma_reduce2(y.negated());
    lemma_eqv_times2(y, z.neg(), y, z.negated());
    lemma_eqv_times2(y.neg(), z, y.negated(), z);
    vstd::arithmetic::mul::lemma_mul_unary_negation(y.c0, z.c0);
    vstd::arithmetic::mul::lemma_mul_unary_negation(y.c1, z.c1);
    vstd::arithmetic::mul::lemma_mul_unary_negation(y.c0, z.c1);
    vstd::arithmetic::mul::lemma_mul_unary_negation(y.c1, z.c0);
    assert(y.times(z.negated()) == y.times(z).negated());
    assert(y.negated().times(z) == y.times(z).negated());
    lemma_eqv_plus2(
        y.times(z.neg()),
        y.times(z.neg()),
        y.times(z).negated(),
        y.times(z).negated(),
    );
    lemma_eqv_plus2(
        y.neg().times(z),
        y.neg().times(z),
        y.times(z).negated(),
        y.times(z).negated(),
    );
    assert(y.times(z).negated().plus(y.times(z).negated()) == p.negated());
    let w = z.add(y).square().sub(y.square()).sub(z.square());
    lemma_eqv_unary2(w, p);
    lemma_reduce2(w.negated());
    lemma_reduce2(z.neg().add(y).square().sub(y.square()).minus(z.neg().square()));
    lemma_reduce2(z.add(y.neg()).square().sub(y.neg().square()).minus(z.square()));
    lemma_canonical_equal2(
        z.neg().add(y).square().sub(y.square()).sub(z.neg().square()),
        w.neg(),
    );
    lemma_canonical_equal2(
        z.add(y.neg()).square().sub(y.neg().square()).sub(z.square()),
        w.neg(),
    );
}

/// `(z + y)^2 - y^2 - z^2` is twice the product.
proof fn lemma_twice(y: Fq2Value, z: Fq2Value)
    ensures
        z.add(y).square().sub(y.square()).sub(z.square()).eqv(y.times(z).plus(y.times(z))),
{
    lemma_cross2(z, y, z, y);
    lemma_times_distributes2(y, z, z);
    let s = z.add(y).square();
    lemma_reduce2(z.times(y).plus(y.times(z)));
    // the order of the two differences
    lemma_reduce2(y.times(y));
    lemma_reduce2(z.times(z));
    lemma_eqv_minus2(s, z.square(), s, z.times(z));
    lemma_eqv_minus2(s.sub(z.square()), y.square(), s.minus(z.times(z)), y.times(y));
    lemma_eqv_minus2(s, y.square(), s, y.times(y));
    lemma_eqv_minus2(s.sub(y.square()), z.square(), s.minus(y.times(y)), z.times(z));
    assert(s.minus(z.times(z)).minus(y.times(y)) == s.minus(y.times(y)).minus(z.times(z)));
}

/// The same with the two differences in the other order.
proof fn lemma_twice_product_other(y: Fq2Value, z: Fq2Value)
    ensures
        z.neg().add(y).square().sub(z.neg().square()).sub(y.square()) == z.add(y).square().sub(
            z.square(),
        ).sub(y.square()).neg(),
{
    lemma_twice_product(y, z);
    lemma_order(z.add(y).square(), y.square(), z.square());
    lemma_order(z.neg().add(y).square(), y.square(), z.neg().square());
}

/// The order of two differences.
pub proof fn lemma_order(s: Fq2Value, a: Fq2Value, b: Fq2Value)
    ensures
        s.sub(a).sub(b) == s.sub(b).sub(a),
{
    lemma_reduce2(s.minus(a));
    lemma_reduce2(s.minus(b));
    lemma_eqv_minus2(s.sub(a), b, s.minus(a), b);
    lemma_eqv_minus2(s.sub(b), a, s.minus(b), a);
    assert(s.minus(a).minus(b) == s.minus(b).minus(a));
    lemma_reduce2(s.sub(a).minus(b));
    lemma_reduce2(s.sub(b).minus(a));
    lemma_canonical_equal2(s.sub(a).sub(b), s.sub(b).sub(a));
}

/// The double of the opposite, and of a product with the opposite.
proof fn lemma_double_opposite(x: Fq2Value, w: Fq2Value)
    ensures
        x.neg().double() == x.double().neg(),
        x.neg().mul(w).double() == x.mul(w).double().neg(),
{
    lemma_reduce2(x.negated());
    lemma_eqv_plus2(x.neg(), x.neg(), x.negated(), x.negated());
    lemma_reduce2(x.plus(x));
    lemma_eqv_unary2(x.double(), x.plus(x));
    assert(x.negated().plus(x.negated()) == x.plus(x).negated());
    lemma_reduce2(x.neg().plus(x.neg()));
    lemma_reduce2(x.double().negated());
    lemma_canonical_equal2(x.neg().double(), x.double().neg());
    // the product
    lemma_eqv_times2(x.neg(), w, x.negated(), w);
    vstd::arithmetic::mul::lemma_mul_unary_negation(x.c0, w.c0);
    vstd::arithmetic::mul::lemma_mul_unary_negation(x.c1, w.c1);
    vstd::arithmetic::mul::lemma_mul_unary_negation(x.c0, w.c1);
    vstd::arithmetic::mul::lemma_mul_unary_negation(x.c1, w.c0);
    assert(x.negated().times(w) == x.times(w).negated());
    lemma_reduce2(x.times(w));
    lemma_eqv_unary2(x.mul(w), x.times(w));
    lemma_reduce2(x.mul(w).negated());
    lemma_canonical_equal2(x.neg().mul(w), x.mul(w).neg());
    lemma_double_first(x.mul(w));
}

/// The double of the opposite.
proof fn lemma_double_first(x: Fq2Value)
    ensures
        x.neg().double() == x.double().neg(),
{
    lemma_reduce2(x.negated());
    lemma_eqv_plus2(x.neg(), x.neg(), x.negated(), x.negated());
    lemma_reduce2(x.plus(x));
    lemma_eqv_unary2(x.double(), x.plus(x));
    assert(x.negated().plus(x.negated()) == x.plus(x).negated());
    lemma_reduce2(x.neg().plus(x.neg()));
    lemma_reduce2(x.double().negated());
    lemma_canonical_equal2(x.neg().double(), x.double().neg());
}

/// The doubling step at the opposite point, given with the second or the
/// last coordinate negated.
#[verifier::rlimit(50)]
pub proof fn lemma_doubled_opposite(r: ProjectiveValue, o: ProjectiveValue)
    requires
        o.x == r.x,
        (o.y == r.y.neg() && o.z == r.z) || (o.y == r.y && o.z == r.z.neg()),
    ensures
        o.doubled() == flipped(r.doubled()),
        o.tangent() == opposite_line(r.tangent()),
{
    reveal(ProjectiveValue::doubled);
    reveal(ProjectiveValue::tangent);
    lemma_squares_of(r.y);
    lemma_squares_of(r.z);
    lemma_twice_product(r.y, r.z);
    let z3 = r.z.add(r.y).square().sub(r.y.square()).sub(r.z.square());
    lemma_double_opposite(z3, r.z.square());
}

/// The addition step at the opposite points.
#[verifier::rlimit(50)]
pub proof fn lemma_added_opposite(r: ProjectiveValue, p: AffineValue)
    ensures
        flipped(r).added(p.neg()) == flipped(r.added(p)),
        flipped(r).chord(p.neg()) == opposite_line(r.chord(p)),
{
    reveal(ProjectiveValue::added);
    reveal(ProjectiveValue::chord);
    lemma_squares_of(r.z);
    lemma_squares_of(p.y);
    lemma_squares(p.y, r.z);
    let (t2, t6) = r.slope(p);
    assert(flipped(r).slope(p.neg()) == (t2, t6));
    lemma_twice_product_other(t2, r.z);
    let z3 = r.z.add(t2).square().sub(r.z.square()).sub(t2.square());
    assert(flipped(r).added(p.neg()).z == z3.neg());
    lemma_squares(p.y, z3);
    lemma_squares_of(z3);
    lemma_double_opposite(z3, z3);
}

/// The lines with the first coefficients negated.
pub open spec fn opposite_lines(s: Seq<LineValue>) -> Seq<LineValue> {
    Seq::new(s.len(), |i: int| opposite_line(s[i]))
}

/// One more line at the end.
proof fn lemma_opposite_push(s: Seq<LineValue>, l: LineValue)
    ensures
        opposite_lines(s.push(l)) == opposite_lines(s).push(opposite_line(l)),
{
    assert(opposite_lines(s.push(l)) =~= opposite_lines(s).push(opposite_line(l)));
}

/// The running point and the lines of the opposite point after `n` steps.
#[verifier::rlimit(50)]
pub proof fn lemma_lines_state_opposite(p: AffineValue, n: nat)
    ensures
        lines_state(p.neg(), n).1 == opposite_lines(lines_state(p, n).1),
        n >= 1 ==> lines_state(p.neg(), n).0 == flipped(lines_state(p, n).0),
    decreases n,
{
    if n == 0 {
        assert(opposite_lines(Seq::<LineValue>::empty()) =~= Seq::<LineValue>::empty());
    } else {
        let k = (n - 1) as nat;
        lemma_lines_state_opposite(p, k);
        let (r, s) = lines_state(p, k);
        let (o, t) = lines_state(p.neg(), k);
        lemma_doubled_opposite(r, o);
        lemma_opposite_push(s, r.tangent());
        let r1 = r.doubled();
        let s1 = s.push(r.tangent());
        lemma_added_opposite(r1, p);
        lemma_added_opposite(r1, p.neg());
        lemma_opposite_push(s1, r1.chord(p));
        lemma_opposite_push(s1, r1.chord(p.neg()));
    }
}

/// The conjugate of the opposite times an element is the opposite of the
/// conjugate times the element.
proof fn lemma_conjugate_opposite(y: Fq2Value, g: Fq2Value)
    ensures
        y.neg().conjugate().mul(g) == y.conjugate().mul(g).neg(),
{
    lemma_reduce2(y.negated());
    lemma_eqv_unary2(y.neg(), y.negated());
    lemma_reduce2(y.conj());
    lemma_eqv_times2(y.neg().conjugate(), g, y.negated().conj(), g);
    lemma_eqv_times2(y.conjugate(), g, y.conj(), g);
    lemma_eqv_unary2(y.conjugate().mul(g), y.conj().times(g));
    vstd::arithmetic::mul::lemma_mul_unary_negation(y.c0, g.c0);
    vstd::arithmetic::mul::lemma_mul_unary_negation(y.c1, g.c1);
    vstd::arithmetic::mul::lemma_mul_unary_negation(y.c0, g.c1);
    vstd::arithmetic::mul::lemma_mul_unary_negation(y.c1, g.c0);
    vstd::arithmetic::mul::lemma_mul_unary_negation(-y.c1, g.c1);
    vstd::arithmetic::mul::lemma_mul_unary_negation(-y.c1, g.c0);
    assert(y.negated().conj().times(g) == y.conj().times(g).negated());
    lemma_reduce2(y.neg().conjugate().times(g));
    lemma_reduce2(y.conjugate().mul(g).negated());
    lemma_canonical_equal2(y.neg().conjugate().mul(g), y.conjugate().mul(g).neg());
}

/// The lines of the opposite of a point are the lines of the point with
/// the first coefficients negated.
#[verifier::rlimit(50)]
pub proof fn lemma_lines_opposite(p: AffineValue)
    ensures
        lines(p.neg()) == opposite_lines(lines(p)),
{
    lemma_lines_state_opposite(p, 64);
    let (r, s) = lines_state(p, 64);
    let q1 = p.frobenius();
    let q2 = p.minus_frobenius2();
    lemma_conjugate_opposite(p.y, crate::params::xi_to_q_minus_1_over_2());
    assert(p.neg().frobenius() == q1.neg());
    assert(p.neg().minus_frobenius2() == q2.neg());
    lemma_added_opposite(r, q1);
    lemma_added_opposite(r.added(q1), q2);
    lemma_opposite_push(s, r.chord(q1));
    lemma_opposite_push(s.push(r.chord(q1)), r.added(q1).chord(q2));
}

/// The pair with the lines of the opposite point of G2.
pub open spec fn opposite_g2(p: PairValue) -> PairValue {
    PairValue { active: p.active, x: p.x, y: p.y, lines: opposite_lines(p.lines) }
}

/// A line with the first coefficient negated at a point is the line at the
/// opposite point.
proof fn lemma_line_at_opposite(l: LineValue, x: int, y: int)
    ensures
        line_at(opposite_line(l), x, y) == line_at(l, x, fq_neg(y)),
{
    let c = l.c0;
    lemma_reduce2(c.negated());
    crate::model::base::lemma_reduce_congruent(-y);
    crate::model::base::lemma_congruent_mul(c.neg().c0, y, -c.c0, y);
    crate::model::base::lemma_congruent_mul(c.neg().c1, y, -c.c1, y);
    crate::model::base::lemma_congruent_mul(c.c0, fq_neg(y), c.c0, -y);
    crate::model::base::lemma_congruent_mul(c.c1, fq_neg(y), c.c1, -y);
    vstd::arithmetic::mul::lemma_mul_unary_negation(c.c0, y);
    vstd::arithmetic::mul::lemma_mul_unary_negation(c.c1, y);
    assert(c.neg().scale(y) == c.scale(fq_neg(y)));
}

/// A step with the lines of the opposite point of G2 is the step at the
/// opposite point of G1.
proof fn lemma_step_lines(
    f: Fq12Value,
    l1: LineValue,
    l2: LineValue,
    x: int,
    y: int,
    square: bool,
    two: bool,
)
    ensures
        step(f, opposite_line(l1), opposite_line(l2), x, y, square, two) == step(
            f,
            l1,
            l2,
            x,
            fq_neg(y),
            square,
            two,
        ),
{
    reveal(step);
    lemma_line_at_opposite(l1, x, y);
    lemma_line_at_opposite(l2, x, y);
}

/// The accumulator with the lines of the opposite point of G2 is the
/// accumulator at the opposite point of G1.
pub proof fn lemma_state_opposite_g2(p: PairValue, n: nat)
    requires
        p.active,
        p.lines.len() == 91,
        n <= 64,
    ensures
        miller_state(seq![opposite_g2(p)], n) == miller_state(seq![opposite(p)], n),
    decreases n,
{
    if n > 0 {
        let k = (n - 1) as nat;
        lemma_state_opposite_g2(p, k);
        crate::model::curve::lemma_lines_before();
        crate::model::curve::lemma_lines_grow(n, 64);
        lemma_state_step(opposite_g2(p), n);
        lemma_state_step(opposite(p), n);
        let pos = crate::model::curve::lines_before(k) as int;
        lemma_step_lines(
            miller_state(seq![opposite(p)], k),
            p.lines[pos],
            p.lines[pos + 1],
            p.x,
            p.y,
            n != 1,
            naf(64 - n) == 1 || naf(64 - n) == -1,
        );
    }
}

/// The Miller loop with the lines of the opposite point of G2 is the Miller
/// loop at the opposite point of G1.
pub proof fn lemma_loop_opposite_g2(p: PairValue)
    requires
        p.active,
        p.lines.len() == 91,
    ensures
        miller_loop(seq![opposite_g2(p)]) == miller_loop(seq![opposite(p)]),
{
    lemma_state_opposite_g2(p, 64);
    let f = miller_state(seq![opposite(p)], 64);
    lemma_untwist_one(f, opposite_g2(p), 89);
    lemma_untwist_one(f, opposite(p), 89);
    lemma_line_at_opposite(p.lines[89], p.x, p.y);
    let g = f.mul(line_at(p.lines[89], p.x, fq_neg(p.y)));
    lemma_untwist_one(g, opposite_g2(p), 90);
    lemma_untwist_one(g, opposite(p), 90);
    lemma_line_at_opposite(p.lines[90], p.x, p.y);
}

} // verus!
