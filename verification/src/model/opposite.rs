//! The pairing at the opposite of a point of G1 is the opposite of the
//! pairing: every line at the opposite point is the opposite of the
//! conjugate of the line at the point.

use crate::model::base::{fq_neg, q};
use crate::model::curve::{lines_before, naf, LineValue};
use crate::model::dodecic::{
    lemma_canonical_equal12, lemma_eqv_times12, lemma_mul_laws12, lemma_reduce12, Fq12Value,
};
use crate::model::frobenius::{lemma_frobenius_product, lemma_frobenius_six};
use crate::model::pairing::{
    lemma_state_canonical, miller_loop, miller_state, untwist_all, PairValue,
};
use crate::model::quadratic::{lemma_reduce2, Fq2Value};
use crate::model::sextic::Fq6Value;
use vstd::prelude::*;

verus! {

/// Minus one in Fq12.
pub open spec fn minus_one() -> Fq12Value {
    Fq12Value::integer(q() - 1)
}

/// The pair with the opposite point of G1.
pub open spec fn opposite(p: PairValue) -> PairValue {
    PairValue { active: p.active, x: p.x, y: fq_neg(p.y), lines: p.lines }
}

/// The element that a line is at a point.
pub open spec fn line_at(l: LineValue, x: int, y: int) -> Fq12Value {
    Fq12Value::sparse(l.c0.scale(y), l.c3.scale(x), l.c4)
}

/// What minus one is to the product, and the conjugation to the product.
pub proof fn lemma_signs(a: Fq12Value, b: Fq12Value)
    requires
        a.canonical(),
        b.canonical(),
    ensures
        minus_one().mul(minus_one()) == Fq12Value::one(),
        minus_one().canonical(),
        minus_one().conjugate() == minus_one(),
        a.mul(b).conjugate() == a.conjugate().mul(b.conjugate()),
        a.conjugate().canonical(),
        Fq12Value::one().conjugate() == Fq12Value::one(),
{
    lemma_frobenius_six(a);
    lemma_frobenius_six(b);
    lemma_mul_laws12(a, b, b);
    lemma_frobenius_six(a.mul(b));
    lemma_frobenius_product(a, b, 6);
    lemma_reduce12(a.conj());
    crate::model::final_exp::lemma_units12();
    lemma_minus_one();
}

/// Minus one times minus one is one.
proof fn lemma_minus_one()
    ensures
        minus_one().mul(minus_one()) == Fq12Value::one(),
        minus_one().canonical(),
        minus_one().conjugate() == minus_one(),
{
    let m = minus_one();
    let k = Fq2Value { c0: q() - 1, c1: 0 };
    crate::model::frobenius::lemma_lift2(k, k);
    reveal(crate::model::power::product);
    assert((q() - 1) * 0 == 0 && 0 * (q() - 1) == 0 && 0int * 0int == 0);
    assert((q() - 1) * (q() - 1) == q() * (q() - 2) + 1) by (nonlinear_arith);
    vstd::arithmetic::div_mod::lemma_mod_multiples_vanish(q() - 2, 1, q());
    vstd::arithmetic::div_mod::lemma_small_mod(1, q() as nat);
    vstd::arithmetic::div_mod::lemma_small_mod(0, q() as nat);
    vstd::arithmetic::div_mod::lemma_small_mod((q() - 1) as nat, q() as nat);
    assert(k.times(k) == (Fq2Value { c0: (q() - 1) * (q() - 1), c1: 0 }));
    lemma_reduce12(m.times(m));
    lemma_reduce12(m.conj());
    assert(m.mul(m) == Fq12Value::one());
}

/// The line at the opposite point is minus the conjugate of the line at the
/// point.
#[verifier::rlimit(50)]
pub proof fn lemma_line_opposite(l: LineValue, x: int, y: int, f: Fq12Value)
    ensures
        f.mul(line_at(l, x, fq_neg(y))) == f.mul(minus_one().mul(line_at(l, x, y).conjugate())),
{
    let s = line_at(l, x, y);
    let t = line_at(l, x, fq_neg(y));
    let m = minus_one();
    let raw = s.conj();
    lemma_reduce12(raw);
    lemma_eqv_times12(m, s.conjugate(), m, raw);
    lemma_times_minus(raw);
    lemma_reduce12(m.times(s.conjugate()));
    // minus the conjugate has the coefficients of the line at the opposite
    let z = Fq2Value::zero();
    vstd::arithmetic::div_mod::lemma_small_mod(0, q() as nat);
    crate::model::base::lemma_congruent_mul(l.c0.c0, fq_neg(y), l.c0.c0, -y);
    crate::model::base::lemma_congruent_mul(l.c0.c1, fq_neg(y), l.c0.c1, -y);
    crate::model::base::lemma_reduce_congruent(-y);
    vstd::arithmetic::mul::lemma_mul_unary_negation(l.c0.c0, y);
    vstd::arithmetic::mul::lemma_mul_unary_negation(l.c0.c1, y);
    crate::model::base::lemma_reduce_congruent(l.c0.c0 * y);
    crate::model::base::lemma_reduce_congruent(l.c0.c1 * y);
    crate::model::base::lemma_congruent_linear(-1, l.c0.c0 * y, 0, 0, (l.c0.c0 * y) % q(), 0);
    crate::model::base::lemma_congruent_linear(-1, l.c0.c1 * y, 0, 0, (l.c0.c1 * y) % q(), 0);
    lemma_reduce2(l.c3.scaled(x));
    assert(t.eqv(raw.negated()));
    lemma_eqv_times12(f, t, f, raw.negated());
    lemma_eqv_times12(f, m.mul(s.conjugate()), f, raw.negated());
    lemma_reduce12(f.times(t));
    lemma_reduce12(f.times(m.mul(s.conjugate())));
    lemma_canonical_equal12(f.mul(t), f.mul(m.mul(s.conjugate())));
}

/// The product with minus one is the opposite, in the field.
#[verifier::rlimit(50)]
proof fn lemma_times_minus(x: Fq12Value)
    ensures
        minus_one().times(x).eqv(x.negated()),
{
    let m = minus_one();
    let k = Fq12Value::integer(-1);
    vstd::arithmetic::div_mod::lemma_mod_multiples_vanish(1, -1, q());
    assert(m.eqv(k));
    lemma_eqv_times12(m, x, k, x);
    crate::model::dodecic::lemma_times_distributes12(k, x, x);
    lemma_integer_times(x, -1);
}

/// The product with an integer, coefficient by coefficient.
proof fn lemma_integer_times(x: Fq12Value, c: int)
    ensures
        x.times(Fq12Value::integer(c)).c0.c0 == x.c0.c0.scaled(c),
        x.times(Fq12Value::integer(c)).c0.c1 == x.c0.c1.scaled(c),
        x.times(Fq12Value::integer(c)).c0.c2 == x.c0.c2.scaled(c),
        x.times(Fq12Value::integer(c)).c1.c0 == x.c1.c0.scaled(c),
        x.times(Fq12Value::integer(c)).c1.c1 == x.c1.c1.scaled(c),
        x.times(Fq12Value::integer(c)).c1.c2 == x.c1.c2.scaled(c),
{
    let k = Fq2Value { c0: c, c1: 0 };
    let z = Fq2Value::zero();
    crate::model::sextic::lemma_times_unit6(x.c0);
    crate::model::sextic::lemma_times_unit6(x.c1);
    crate::model::quadratic::lemma_times_associates2(x.c0.c0, z, z);
    crate::model::quadratic::lemma_times_associates2(x.c0.c1, z, z);
    crate::model::quadratic::lemma_times_associates2(x.c0.c2, z, z);
    crate::model::quadratic::lemma_times_associates2(x.c1.c0, z, z);
    crate::model::quadratic::lemma_times_associates2(x.c1.c1, z, z);
    crate::model::quadratic::lemma_times_associates2(x.c1.c2, z, z);
    assert(x.c0.c0.c0 * 0 == 0 && x.c0.c0.c1 * 0 == 0);
    assert(x.c0.c1.c0 * 0 == 0 && x.c0.c1.c1 * 0 == 0);
    assert(x.c0.c2.c0 * 0 == 0 && x.c0.c2.c1 * 0 == 0);
    assert(x.c1.c0.c0 * 0 == 0 && x.c1.c0.c1 * 0 == 0);
    assert(x.c1.c1.c0 * 0 == 0 && x.c1.c1.c1 * 0 == 0);
    assert(x.c1.c2.c0 * 0 == 0 && x.c1.c2.c1 * 0 == 0);
    assert(x.c0.c0.times(k) == x.c0.c0.scaled(c));
    assert(x.c0.c1.times(k) == x.c0.c1.scaled(c));
    assert(x.c0.c2.times(k) == x.c0.c2.scaled(c));
    assert(x.c1.c0.times(k) == x.c1.c0.scaled(c));
    assert(x.c1.c1.times(k) == x.c1.c1.scaled(c));
    assert(x.c1.c2.times(k) == x.c1.c2.scaled(c));
    assert(z.times_xi() == z);
}

/// The coefficients of the lines are canonical.
pub open spec fn canonical_lines(p: PairValue) -> bool {
    p.lines.len() == 91 && forall|i: int|
        0 <= i < 91 ==> (#[trigger] p.lines[i]).c0.canonical() && p.lines[i].c3.canonical()
            && p.lines[i].c4.canonical()
}

/// One line more, at the point and at its opposite: the sign changes.
#[verifier::rlimit(50)]
proof fn lemma_line_step(f: Fq12Value, l: LineValue, x: int, y: int)
    requires
        f.canonical(),
        l.c4.canonical(),
    ensures
        f.conjugate().mul(line_at(l, x, fq_neg(y))) == minus_one().mul(
            f.mul(line_at(l, x, y)).conjugate(),
        ),
        minus_one().mul(f.conjugate()).mul(line_at(l, x, fq_neg(y))) == f.mul(
            line_at(l, x, y),
        ).conjugate(),
{
    let m = minus_one();
    let s = line_at(l, x, y);
    let c = f.conjugate();
    lemma_reduce2(l.c0.scaled(y));
    lemma_reduce2(l.c3.scaled(x));
    vstd::arithmetic::div_mod::lemma_small_mod(0, q() as nat);
    assert(s.canonical());
    lemma_signs(f, s);
    lemma_line_opposite(l, x, y, c);
    lemma_line_opposite(l, x, y, m.mul(c));
    // c (m s') = m (c s'), and (m c)(m s') = (m m)(c s') = c s'
    let one = Fq12Value::one();
    let t = s.conjugate();
    assert(f.mul(s).conjugate() == c.mul(t));
    // c (m t) = m (c t)
    lemma_mul_laws12(c, m, t);
    lemma_mul_laws12(m, c, t);
    assert(c.mul(m.mul(t)) == m.mul(c.mul(t)));
    // (m c)(m t) = (m m)(c t) = c t
    crate::model::homomorphism::lemma_four12(m, c, m, t);
    lemma_mul_laws12(c, t, c);
    lemma_mul_laws12(c.mul(t), one, one);
    assert(one.mul(c.mul(t)) == c.mul(t));
}

/// The lines of one pair at one position.
pub proof fn lemma_untwist_one(f: Fq12Value, p: PairValue, pos: int)
    ensures
        untwist_all(f, seq![p], pos) == (if p.active {
            f.mul(line_at(p.lines[pos], p.x, p.y))
        } else {
            f
        }),
{
    let s = seq![p];
    assert(s.drop_last() =~= Seq::<PairValue>::empty());
    assert(s.last() == p);
    assert(untwist_all(f, s.drop_last(), pos) == f);
}

/// One step of the loop for one pair: the square, where `square` is set,
/// and one line or two.
#[verifier::opaque]
pub open spec fn step(
    f: Fq12Value,
    l1: LineValue,
    l2: LineValue,
    x: int,
    y: int,
    square: bool,
    two: bool,
) -> Fq12Value {
    let f1 = if square {
        f.square()
    } else {
        f
    };
    let f2 = f1.mul(line_at(l1, x, y));
    if two {
        f2.mul(line_at(l2, x, y))
    } else {
        f2
    }
}

/// The accumulator after a step, from the accumulator before it.
pub proof fn lemma_state_step(p: PairValue, n: nat)
    requires
        p.active,
        1 <= n <= 64,
    ensures
        miller_state(seq![p], n) == step(
            miller_state(seq![p], (n - 1) as nat),
            p.lines[lines_before((n - 1) as nat) as int],
            p.lines[lines_before((n - 1) as nat) as int + 1],
            p.x,
            p.y,
            n != 1,
            naf(64 - n) == 1 || naf(64 - n) == -1,
        ),
{
    reveal(step);
    let f = miller_state(seq![p], (n - 1) as nat);
    let pos = lines_before((n - 1) as nat) as int;
    let f1 = if n == 1 {
        f
    } else {
        f.square()
    };
    lemma_untwist_one(f1, p, pos);
    lemma_untwist_one(f1.mul(line_at(p.lines[pos], p.x, p.y)), p, pos + 1);
}

/// The square of the conjugate, and of minus the conjugate, is the
/// conjugate of the square.
#[verifier::rlimit(50)]
proof fn lemma_square_sign(f: Fq12Value)
    requires
        f.canonical(),
    ensures
        f.conjugate().square() == f.square().conjugate(),
        minus_one().mul(f.conjugate()).square() == f.square().conjugate(),
        f.square().canonical(),
{
    let m = minus_one();
    let c = f.conjugate();
    let one = Fq12Value::one();
    lemma_signs(f, f);
    lemma_mul_laws12(f, f, f);
    assert(f.square().conjugate() == c.mul(c));
    crate::model::homomorphism::lemma_four12(m, c, m, c);
    assert(m.mul(c).mul(m.mul(c)) == m.mul(m).mul(c.mul(c)));
    lemma_mul_laws12(c, c, c);
    lemma_mul_laws12(c.mul(c), one, one);
    assert(one.mul(c.mul(c)) == c.mul(c));
}

/// One line or two after the conjugate of an accumulator, at the opposite
/// point.
proof fn lemma_lines_opposite(
    f: Fq12Value,
    l1: LineValue,
    l2: LineValue,
    x: int,
    y: int,
)
    requires
        f.canonical(),
        l1.c4.canonical(),
        l2.c4.canonical(),
    ensures
        f.conjugate().mul(line_at(l1, x, fq_neg(y))) == minus_one().mul(
            f.mul(line_at(l1, x, y)).conjugate(),
        ),
        f.conjugate().mul(line_at(l1, x, fq_neg(y))).mul(line_at(l2, x, fq_neg(y))) == f.mul(
            line_at(l1, x, y),
        ).mul(line_at(l2, x, y)).conjugate(),
{
    lemma_line_step(f, l1, x, y);
    let f2 = f.mul(line_at(l1, x, y));
    lemma_mul_laws12(f, line_at(l1, x, y), f);
    lemma_line_step(f2, l2, x, y);
}

/// A step at the opposite point, from the conjugate of the accumulator or
/// minus that: the conjugate of the step at the point, or minus that where
/// the step takes one line only.
#[verifier::rlimit(50)]
proof fn lemma_step_opposite(
    f: Fq12Value,
    g: Fq12Value,
    l1: LineValue,
    l2: LineValue,
    x: int,
    y: int,
    square: bool,
    two: bool,
)
    requires
        f.canonical(),
        l1.c4.canonical(),
        l2.c4.canonical(),
        g == f.conjugate() || (square && g == minus_one().mul(f.conjugate())),
    ensures
        step(g, l1, l2, x, fq_neg(y), square, two) == (if two {
            step(f, l1, l2, x, y, square, two).conjugate()
        } else {
            minus_one().mul(step(f, l1, l2, x, y, square, two).conjugate())
        }),
{
    reveal(step);
    if square {
        lemma_square_sign(f);
        lemma_lines_opposite(f.square(), l1, l2, x, y);
    } else {
        lemma_lines_opposite(f, l1, l2, x, y);
    }
}

/// The accumulator at the opposite point is the conjugate of the
/// accumulator at the point, or minus that where the last step took one
/// line only.
pub proof fn lemma_state_opposite(p: PairValue, n: nat)
    requires
        p.active,
        canonical_lines(p),
        n <= 64,
    ensures
        miller_state(seq![opposite(p)], n) == (if n == 0 || naf(64 - n) == 1 || naf(64 - n)
            == -1 {
            miller_state(seq![p], n).conjugate()
        } else {
            minus_one().mul(miller_state(seq![p], n).conjugate())
        }),
    decreases n,
{
    let o = opposite(p);
    crate::model::curve::lemma_lines_before();
    if n == 0 {
        crate::model::final_exp::lemma_units12();
    } else {
        let k = (n - 1) as nat;
        lemma_state_opposite(p, k);
        lemma_state_canonical(seq![p], k);
        crate::model::curve::lemma_lines_grow(n, 64);
        lemma_state_step(p, n);
        lemma_state_step(o, n);
        let pos = lines_before(k) as int;
        lemma_step_opposite(
            miller_state(seq![p], k),
            miller_state(seq![o], k),
            p.lines[pos],
            p.lines[pos + 1],
            p.x,
            p.y,
            n != 1,
            naf(64 - n) == 1 || naf(64 - n) == -1,
        );
    }
}

/// The Miller loop at the opposite point is minus the conjugate of the
/// Miller loop at the point.
pub proof fn lemma_loop_opposite(p: PairValue)
    requires
        p.active,
        canonical_lines(p),
    ensures
        miller_loop(seq![opposite(p)]) == minus_one().mul(miller_loop(seq![p]).conjugate()),
{
    let o = opposite(p);
    lemma_state_opposite(p, 64);
    lemma_state_canonical(seq![p], 64);
    let f = miller_state(seq![p], 64);
    let g = miller_state(seq![o], 64);
    assert(naf(0) == 0);
    lemma_untwist_one(f, p, 89);
    lemma_untwist_one(g, o, 89);
    lemma_line_step(f, p.lines[89], p.x, p.y);
    let f1 = f.mul(line_at(p.lines[89], p.x, p.y));
    let g1 = g.mul(line_at(p.lines[89], p.x, fq_neg(p.y)));
    lemma_mul_laws12(f, line_at(p.lines[89], p.x, p.y), f);
    lemma_untwist_one(f1, p, 90);
    lemma_untwist_one(g1, o, 90);
    lemma_line_step(f1, p.lines[90], p.x, p.y);
}

/// Minus one is invertible, and so is the conjugate of an invertible
/// element.
#[verifier::rlimit(50)]
proof fn lemma_invertible_signs(f: Fq12Value)
    requires
        f.invertible(),
    ensures
        minus_one().invertible(),
        f.conjugate().invertible(),
{
    // the norm of minus one is one
    let m = minus_one();
    lemma_minus_one();
    let k = Fq2Value { c0: q() - 1, c1: 0 };
    crate::model::sextic::lemma_times_unit6(m.c0);
    crate::model::sextic::lemma_times_unit6(Fq6Value::zero());
    crate::model::quadratic::lemma_times_associates2(k, Fq2Value::zero(), Fq2Value::zero());
    assert((q() - 1) * 0 == 0 && 0 * (q() - 1) == 0 && 0int * 0int == 0);
    assert((q() - 1) * (q() - 1) == q() * (q() - 2) + 1) by (nonlinear_arith);
    vstd::arithmetic::div_mod::lemma_mod_multiples_vanish(q() - 2, 1, q());
    vstd::arithmetic::div_mod::lemma_small_mod(1, q() as nat);
    vstd::arithmetic::div_mod::lemma_small_mod(0, q() as nat);
    assert(k.times(k) == (Fq2Value { c0: (q() - 1) * (q() - 1), c1: 0 }));
    assert(m.norm() == Fq6Value::one());
    crate::model::final_exp::lemma_units6();
    // the norm of the conjugate is the norm
    let c = f.conjugate();
    crate::model::sextic::lemma_reduce6(f.c0);
    crate::model::sextic::lemma_reduce6(f.c1.negated());
    crate::model::sextic::lemma_eqv_times6(c.c0, c.c0, f.c0, f.c0);
    crate::model::sextic::lemma_eqv_times6(c.c1, c.c1, f.c1.negated(), f.c1.negated());
    crate::model::dodecic::lemma_times_negated6(f.c1.negated(), f.c1);
    crate::model::dodecic::lemma_times_negated6(f.c1, f.c1);
    crate::model::sextic::lemma_times_distributes6(f.c1.negated(), f.c1, f.c1);
    assert(f.c1.negated().times(f.c1.negated()) == f.c1.times(f.c1));
    crate::model::sextic::lemma_eqv_unary6(c.c1.times(c.c1), f.c1.times(f.c1));
    crate::model::sextic::lemma_eqv_minus6(
        c.c0.times(c.c0),
        c.c1.times(c.c1).times_v(),
        f.c0.times(f.c0),
        f.c1.times(f.c1).times_v(),
    );
    crate::model::sextic::lemma_reduce6(c.c0.times(c.c0).minus(c.c1.times(c.c1).times_v()));
    crate::model::sextic::lemma_reduce6(f.c0.times(f.c0).minus(f.c1.times(f.c1).times_v()));
    crate::model::sextic::lemma_canonical_equal6(c.norm(), f.norm());
}

/// The final exponentiation of minus the conjugate of an invertible element
/// is the conjugate of the final exponentiation of the element, which is
/// its inverse.
#[verifier::rlimit(50)]
pub proof fn lemma_final_exp_opposite(f: Fq12Value)
    requires
        f.canonical(),
        f.invertible(),
    ensures
        minus_one().mul(f.conjugate()).final_exp() == f.final_exp().conjugate(),
        f.final_exp().mul(f.final_exp().conjugate()) == Fq12Value::one(),
{
    let one = Fq12Value::one();
    let m = minus_one();
    let c = f.conjugate();
    let d = crate::model::exponents::final_exponent();
    let h = crate::model::exponents::half_exponent();
    let q6 = crate::model::exponents::q_power(6);
    crate::model::exponents::lemma_exponent_of_conjugate();
    crate::model::exponents::lemma_exponents();
    lemma_invertible_signs(f);
    lemma_signs(f, f);
    crate::model::norm::lemma_invertible_product(m, c);
    lemma_mul_laws12(m, c, c);
    crate::model::homomorphism::lemma_final_exp_power(m.mul(c));
    crate::model::homomorphism::lemma_final_exp_power(f);
    crate::model::power::lemma_power_product(m, c, d);
    // (-1)^d = ((-1)^2)^(d / 2) = 1
    crate::model::power::lemma_power_multiplies(m, 2, h);
    assert(m.power(0) == one);
    assert(m.power(1) == m.mul(m.power(0)));
    assert(m.power(2) == m.mul(m.power(1)));
    lemma_mul_laws12(m, one, one);
    crate::model::homomorphism::lemma_one_power(h);
    assert(m.power(d) == one);
    // conj(f)^d = f^(q^6 d) = f^(d q^6) = conj(f^d)
    crate::model::frobenius::lemma_frobenius12(f, 6);
    lemma_frobenius_six(f);
    crate::model::power::lemma_power_multiplies(f, q6, d);
    crate::model::power::lemma_power_multiplies(f, d, q6);
    assert(q6 * d == d * q6) by (nonlinear_arith);
    crate::model::power::lemma_power_raised(f, d);
    let e = f.power(d);
    crate::model::frobenius::lemma_frobenius12(e, 6);
    lemma_frobenius_six(e);
    assert(c.power(d) == e.conjugate());
    lemma_signs(e, e);
    lemma_mul_laws12(e.conjugate(), one, one);
    // f^d conj(f^d) = f^(d (q^6 + 1)) = (f^(q^12 - 1))^t = 1
    let t = crate::model::exponents::conjugate_cofactor();
    let big = (crate::model::exponents::q_power(12) - 1) as nat;
    crate::model::homomorphism::lemma_power_adds(f, d, d * q6);
    assert(d + d * q6 == d * (q6 + 1)) by (nonlinear_arith);
    crate::model::power::lemma_power_multiplies(f, big, t);
    crate::model::homomorphism::lemma_unit_order(f);
    crate::model::homomorphism::lemma_one_power(t);
}

/// Minus the conjugate of an invertible element is invertible.
pub proof fn lemma_pairing_sum_opposite(f: Fq12Value)
    requires
        f.canonical(),
        f.invertible(),
    ensures
        minus_one().mul(f.conjugate()).invertible(),
{
    lemma_invertible_signs(f);
    crate::model::norm::lemma_invertible_product(minus_one(), f.conjugate());
}

} // verus!
