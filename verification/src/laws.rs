//! Laws of the library: what holds between its operations, for all inputs.

use crate::fq::Fq;
use crate::fq12::Fq12;
use crate::fq2::Fq2;
use crate::fq6::Fq6;
use crate::g1::G1Affine;
use crate::g2::G2PairingAffine;
use crate::model::base::{canonical, fq_add, fq_inv, fq_mul, fq_neg, q};
use crate::model::dodecic::{
    lemma_canonical_equal12, lemma_eqv_plus12, lemma_eqv_times12, lemma_reduce12,
    lemma_times_distributes12, Fq12Value,
};
use crate::model::pairing::{miller_loop, miller_state, untwist_all, PairValue};
use crate::model::quadratic::{
    lemma_canonical_equal2, lemma_eqv_plus2, lemma_eqv_times2, lemma_reduce2,
    lemma_times_distributes2, Fq2Value,
};
use crate::model::sextic::{
    lemma_canonical_equal6, lemma_eqv_plus6, lemma_eqv_times6, lemma_reduce6,
    lemma_times_distributes6, Fq6Value,
};
use crate::pairing::pair_values;
use vstd::arithmetic::power::pow;
use vstd::prelude::*;

verus! {

/// In Fq an element and its opposite add up to zero.
pub proof fn lemma_fq_add_neg(a: Fq)
    requires
        a.wf(),
    ensures
        fq_add(a@, fq_neg(a@)) == 0,
{
    a.lemma_canonical();
    vstd::arithmetic::div_mod::lemma_add_mod_noop_right(a@, -a@, q());
    vstd::arithmetic::div_mod::lemma_small_mod(0, q() as nat);
}

/// In Fq an element other than zero times its inverse is one.
pub proof fn lemma_fq_mul_inverse(a: Fq)
    requires
        a.wf(),
        a@ != 0,
    ensures
        fq_mul(a@, fq_inv(a@)) == 1,
{
    a.lemma_canonical();
    vstd::arithmetic::div_mod::lemma_small_mod(a@ as nat, q() as nat);
    crate::model::base::lemma_fq_inverse(a@);
}

/// In Fq what `square` returns is what `mul` returns for the element and
/// itself, limb by limb.
pub proof fn lemma_fq_square_is_product(a: Fq, s: Fq, p: Fq)
    requires
        a.wf(),
        s.wf(),
        p.wf(),
        s@ == fq_mul(a@, a@),
        p@ == fq_mul(a@, a@),
    ensures
        s.same(&p),
{
    s.lemma_injective(p);
}

/// In Fq what `double` returns is what `add` returns for the element and
/// itself, limb by limb.
pub proof fn lemma_fq_double_is_sum(a: Fq, d: Fq, s: Fq)
    requires
        a.wf(),
        d.wf(),
        s.wf(),
        d@ == fq_add(a@, a@),
        s@ == fq_add(a@, a@),
    ensures
        d.same(&s),
{
    d.lemma_injective(s);
}

/// A number below `q` that is lifted into Montgomery form and taken out of
/// it again is the number it was: the value of the element is the number.
pub proof fn lemma_mont_round_trip(v: [u64; 4], x: Fq, w: [u64; 4])
    requires
        crate::limbs::limbs_value(v) < q(),
        x.wf(),
        x@ == crate::limbs::limbs_value(v) % q(),
        crate::limbs::limbs_value(w) == x@,
    ensures
        w[0] == v[0],
        w[1] == v[1],
        w[2] == v[2],
        w[3] == v[3],
{
    vstd::arithmetic::div_mod::lemma_small_mod(crate::limbs::limbs_value(v) as nat, q() as nat);
    crate::limbs::lemma_limbs_unique(v, w);
}

/// In Fq2 the product distributes over the sum.
pub proof fn lemma_fq2_distributive(a: Fq2, b: Fq2, c: Fq2)
    requires
        a.wf(),
        b.wf(),
        c.wf(),
    ensures
        a@.add(b@).mul(c@) == a@.mul(c@).add(b@.mul(c@)),
{
    let (x, y, z) = (a@, b@, c@);
    lemma_reduce2(x.plus(y));
    lemma_eqv_times2(x.add(y), z, x.plus(y), z);
    lemma_times_distributes2(x, y, z);
    lemma_reduce2(x.times(z));
    lemma_reduce2(y.times(z));
    lemma_eqv_plus2(x.mul(z), y.mul(z), x.times(z), y.times(z));
    lemma_reduce2(x.add(y).times(z));
    lemma_reduce2(x.mul(z).plus(y.mul(z)));
    lemma_canonical_equal2(x.add(y).mul(z), x.mul(z).add(y.mul(z)));
}

/// In Fq6 the product distributes over the sum.
pub proof fn lemma_fq6_distributive(a: Fq6, b: Fq6, c: Fq6)
    requires
        a.wf(),
        b.wf(),
        c.wf(),
    ensures
        a@.add(b@).mul(c@) == a@.mul(c@).add(b@.mul(c@)),
{
    let (x, y, z) = (a@, b@, c@);
    lemma_reduce6(x.plus(y));
    lemma_eqv_times6(x.add(y), z, x.plus(y), z);
    lemma_times_distributes6(x, y, z);
    lemma_reduce6(x.times(z));
    lemma_reduce6(y.times(z));
    lemma_eqv_plus6(x.mul(z), y.mul(z), x.times(z), y.times(z));
    lemma_reduce6(x.add(y).times(z));
    lemma_reduce6(x.mul(z).plus(y.mul(z)));
    lemma_canonical_equal6(x.add(y).mul(z), x.mul(z).add(y.mul(z)));
}

/// In Fq12 the product distributes over the sum.
#[verifier::rlimit(50)]
pub proof fn lemma_fq12_distributive(a: Fq12, b: Fq12, c: Fq12)
    requires
        a.wf(),
        b.wf(),
        c.wf(),
    ensures
        a@.add(b@).mul(c@) == a@.mul(c@).add(b@.mul(c@)),
{
    let (x, y, z) = (a@, b@, c@);
    lemma_reduce12(x.plus(y));
    lemma_eqv_times12(x.add(y), z, x.plus(y), z);
    lemma_times_distributes12(x, y, z);
    lemma_reduce12(x.times(z));
    lemma_reduce12(y.times(z));
    lemma_eqv_plus12(x.mul(z), y.mul(z), x.times(z), y.times(z));
    lemma_reduce12(x.add(y).times(z));
    lemma_reduce12(x.mul(z).plus(y.mul(z)));
    lemma_canonical_equal12(x.add(y).mul(z), x.mul(z).add(y.mul(z)));
}

/// In Fq2 the `k`-th Frobenius map is the power with exponent `q^k`.
pub proof fn lemma_fq2_frobenius(x: Fq2, k: nat)
    requires
        x.wf(),
    ensures
        pow(q(), k) > 0,
        x@.frobenius(k) == x@.power(pow(q(), k) as nat),
{
    x.lemma_canonical();
    crate::model::frobenius::lemma_frobenius2(x@, k);
}

/// In Fq6 the `k`-th Frobenius map is the power with exponent `q^k`.
pub proof fn lemma_fq6_frobenius(x: Fq6, k: nat)
    requires
        x.wf(),
    ensures
        pow(q(), k) > 0,
        x@.frobenius(k) == x@.power(pow(q(), k) as nat),
{
    x.lemma_canonical();
    crate::model::frobenius::lemma_frobenius6(x@, k);
}

/// In Fq12 the `k`-th Frobenius map is the power with exponent `q^k`.
pub proof fn lemma_fq12_frobenius(x: Fq12, k: nat)
    requires
        x.wf(),
    ensures
        pow(q(), k) > 0,
        x@.frobenius(k) == x@.power(pow(q(), k) as nat),
{
    x.lemma_canonical();
    crate::model::frobenius::lemma_frobenius12(x@, k);
}

/// On the cyclotomic subgroup of Fq12, the elements with
/// `x^(q^4 - q^2 + 1) = 1`, the squaring of Granger and Scott gives the
/// square.
pub proof fn lemma_cyclotomic_square(x: Fq12)
    requires
        x.wf(),
        x@.frobenius(4).mul(x@) == x@.frobenius(2),
    ensures
        x@.cyclotomic_square() == x@.square(),
{
    x.lemma_canonical();
    crate::model::cyclotomic::lemma_cyclotomic_square(x@);
}

/// What the easy part of the final exponentiation makes of an element
/// other than zero lies in the cyclotomic subgroup, so that its cyclotomic
/// square is its square.
pub proof fn lemma_easy_part_cyclotomic(f: Fq12)
    requires
        f.wf(),
        f@ != Fq12Value::zero(),
    ensures
        f@.easy_part().frobenius(4).mul(f@.easy_part()) == f@.easy_part().frobenius(2),
        f@.easy_part().cyclotomic_square() == f@.easy_part().square(),
{
    f.lemma_canonical();
    crate::model::field::lemma_field12(f@);
    crate::model::cyclotomic::lemma_easy_part(f@);
    crate::model::cyclotomic::lemma_cyclotomic_square(f@.easy_part());
}

/// The pairing of a list with one more pair is the sum in the target group
/// of the pairing of the list and the pairing of the pair, where the value
/// of neither Miller loop is zero.
#[verifier::rlimit(50)]
pub proof fn lemma_pairing_of_more(
    pairs: Seq<(G1Affine, G2PairingAffine)>,
    last: (G1Affine, G2PairingAffine),
)
    requires
        miller_loop(pair_values(pairs)) != Fq12Value::zero(),
        miller_loop(pair_values(seq![last])) != Fq12Value::zero(),
    ensures
        miller_loop(pair_values(pairs.push(last))).final_exp() == miller_loop(
            pair_values(pairs),
        ).final_exp().mul(miller_loop(pair_values(seq![last])).final_exp()),
{
    let s = pair_values(pairs);
    let p = crate::pairing::pair_value(last);
    assert(pair_values(pairs.push(last)) =~= s.push(p));
    assert(pair_values(seq![last]) =~= seq![p]);
    crate::model::pairing::lemma_loop_push(s, p);
    crate::model::pairing::lemma_loop_canonical(s);
    crate::model::pairing::lemma_loop_canonical(seq![p]);
    crate::model::field::lemma_field12(miller_loop(s));
    crate::model::field::lemma_field12(miller_loop(seq![p]));
    crate::model::homomorphism::lemma_final_exp_product(miller_loop(s), miller_loop(seq![p]));
}

/// The pairing of two pairs is the sum in the target group of the pairings
/// of the pairs, where the value of neither Miller loop is zero.
pub proof fn lemma_pairing_of_two(
    first: (G1Affine, G2PairingAffine),
    second: (G1Affine, G2PairingAffine),
)
    requires
        miller_loop(pair_values(seq![first])) != Fq12Value::zero(),
        miller_loop(pair_values(seq![second])) != Fq12Value::zero(),
    ensures
        miller_loop(pair_values(seq![first, second])).final_exp() == miller_loop(
            pair_values(seq![first]),
        ).final_exp().mul(miller_loop(pair_values(seq![second])).final_exp()),
{
    assert(seq![first].push(second) =~= seq![first, second]);
    lemma_pairing_of_more(seq![first], second);
}

/// A product of elements of Fq12 other than zero is not zero, and the final
/// exponentiation goes through it.
#[verifier::rlimit(50)]
pub proof fn lemma_final_exp_product(x: Fq12, y: Fq12)
    requires
        x.wf(),
        y.wf(),
        x@ != Fq12Value::zero(),
        y@ != Fq12Value::zero(),
    ensures
        x@.mul(y@) != Fq12Value::zero(),
        x@.mul(y@).final_exp() == x@.final_exp().mul(y@.final_exp()),
{
    x.lemma_canonical();
    y.lemma_canonical();
    crate::model::field::lemma_field12(x@);
    crate::model::field::lemma_field12(y@);
    crate::model::final_exp::lemma_zero_norms();
    crate::model::norm::lemma_invertible_product(x@, y@);
    crate::model::homomorphism::lemma_final_exp_product(x@, y@);
}

/// The pairing at the opposite of a point of G1 is the opposite of the
/// pairing at the point, so that the pairing of the two pairs is the neutral
/// element; where the value of the Miller loop is not zero.
#[verifier::rlimit(50)]
pub proof fn lemma_pairing_of_opposite(p: G1Affine, n: G1Affine, g2: G2PairingAffine)
    requires
        p.wf(),
        g2.wf(),
        n.x@ == p.x@,
        n.y@ == fq_neg(p.y@),
        n.is_infinity == p.is_infinity,
        miller_loop(pair_values(seq![(p, g2)])) != Fq12Value::zero(),
    ensures
        miller_loop(pair_values(seq![(n, g2)])).final_exp() == miller_loop(
            pair_values(seq![(p, g2)]),
        ).final_exp().conjugate(),
        miller_loop(pair_values(seq![(p, g2)])).final_exp().mul(
            miller_loop(pair_values(seq![(n, g2)])).final_exp(),
        ) == Fq12Value::one(),
        miller_loop(pair_values(seq![(p, g2), (n, g2)])).final_exp() == Fq12Value::one(),
{
    let v = crate::pairing::pair_value((p, g2));
    let o = crate::pairing::pair_value((n, g2));
    assert(pair_values(seq![(p, g2)]) =~= seq![v]);
    assert(pair_values(seq![(n, g2)]) =~= seq![o]);
    assert(o == crate::model::opposite::opposite(v));
    let f = miller_loop(seq![v]);
    crate::model::pairing::lemma_loop_canonical(seq![v]);
    crate::model::field::lemma_field12(f);
    crate::model::final_exp::lemma_zero_norms();
    crate::model::opposite::lemma_final_exp_opposite(f);
    if v.active {
        assert forall|i: int| 0 <= i < 91 implies (#[trigger] v.lines[i]).c0.canonical()
            && v.lines[i].c3.canonical() && v.lines[i].c4.canonical() by {
            let c = g2.coeffs@[i];
            assert(c.wf());
            c.0.lemma_canonical();
            c.1.lemma_canonical();
            c.2.lemma_canonical();
        }
        crate::model::opposite::lemma_loop_opposite(v);
        crate::model::opposite::lemma_pairing_sum_opposite(f);
    } else {
        lemma_pairing_of_identities(seq![(p, g2)]);
        lemma_pairing_of_identities(seq![(n, g2)]);
        crate::model::final_exp::lemma_units12();
    }
    lemma_pairing_of_two((p, g2), (n, g2));
}

/// The pairing at the opposite of a point of G2 is the opposite of the
/// pairing at the point, where the value of the Miller loop is not zero.
/// Here `a` and `b` hold the lines of the point `g` and of its opposite, as
/// `G2PairingAffine::from` returns them.
#[verifier::rlimit(50)]
pub proof fn lemma_pairing_of_opposite_g2(
    p: G1Affine,
    g: crate::g2::G2Affine,
    a: G2PairingAffine,
    b: G2PairingAffine,
)
    requires
        p.wf(),
        a.wf(),
        b.wf(),
        !a.is_infinity,
        !b.is_infinity,
        a.lines() == crate::model::curve::lines(g.value()),
        b.lines() == crate::model::curve::lines(g.value().neg()),
        miller_loop(pair_values(seq![(p, a)])) != Fq12Value::zero(),
    ensures
        miller_loop(pair_values(seq![(p, b)])).final_exp() == miller_loop(
            pair_values(seq![(p, a)]),
        ).final_exp().conjugate(),
{
    let v = crate::pairing::pair_value((p, a));
    let o = crate::pairing::pair_value((p, b));
    assert(pair_values(seq![(p, a)]) =~= seq![v]);
    assert(pair_values(seq![(p, b)]) =~= seq![o]);
    crate::model::opposite_g2::lemma_lines_opposite(g.value());
    assert(o == crate::model::opposite_g2::opposite_g2(v));
    let f = miller_loop(seq![v]);
    crate::model::pairing::lemma_loop_canonical(seq![v]);
    crate::model::field::lemma_field12(f);
    crate::model::opposite::lemma_final_exp_opposite(f);
    if v.active {
        assert forall|i: int| 0 <= i < 91 implies (#[trigger] v.lines[i]).c0.canonical()
            && v.lines[i].c3.canonical() && v.lines[i].c4.canonical() by {
            let c = a.coeffs@[i];
            assert(c.wf());
            c.0.lemma_canonical();
            c.1.lemma_canonical();
            c.2.lemma_canonical();
        }
        crate::model::opposite_g2::lemma_loop_opposite_g2(v);
        crate::model::opposite::lemma_loop_opposite(v);
    } else {
        lemma_pairing_of_identities(seq![(p, a)]);
        lemma_pairing_of_identities(seq![(p, b)]);
        crate::model::final_exp::lemma_units12();
    }
}

/// The final exponentiation raises an element other than zero to the power
/// `(q^12 - 1) / r`, where `r` is the order of the groups.
pub proof fn lemma_final_exp_is_power(f: Fq12)
    requires
        f.wf(),
        f@ != Fq12Value::zero(),
    ensures
        f@.final_exp() == f@.power(crate::model::exponents::final_exponent()),
        crate::model::exponents::group_order() * crate::model::exponents::final_exponent()
            == crate::model::exponents::q_power(12) - 1,
{
    f.lemma_canonical();
    crate::model::field::lemma_field12(f@);
    crate::model::homomorphism::lemma_final_exp_power(f@);
    crate::model::exponents::lemma_exponents();
}

/// What the final exponentiation returns has an order that divides `r`: its
/// power with exponent `r` is the neutral element.
pub proof fn lemma_final_exp_order(f: Fq12)
    requires
        f.wf(),
    ensures
        f@.final_exp().power(crate::model::exponents::group_order()) == Fq12Value::one(),
{
    f.lemma_canonical();
    crate::model::homomorphism::lemma_final_exp_torsion(f@);
}

/// Fq2, Fq6 and Fq12 are fields: an element other than zero times its
/// inverse is one.
#[verifier::rlimit(50)]
pub proof fn lemma_tower_inverse(x: Fq12)
    requires
        x.wf(),
    ensures
        x@ != Fq12Value::zero() ==> x@.mul(x@.inv()) == Fq12Value::one(),
        x@.c0 != Fq6Value::zero() ==> x@.c0.mul(x@.c0.inv()) == Fq6Value::one(),
        x@.c0.c0 != Fq2Value::zero() ==> x@.c0.c0.mul(x@.c0.c0.inv()) == Fq2Value::one(),
{
    x.lemma_canonical();
    if x@ != Fq12Value::zero() {
        crate::model::field::lemma_field12(x@);
        crate::model::dodecic::lemma_inverse12(x@);
    }
    if x@.c0 != Fq6Value::zero() {
        crate::model::field::lemma_field6(x@.c0);
        crate::model::sextic::lemma_inverse6(x@.c0);
    }
    if x@.c0.c0 != Fq2Value::zero() {
        crate::model::quadratic::lemma_inverse2(x@.c0.c0);
    }
}

/// In Fq12 the power with exponent `q` goes through sums and products: it
/// is a homomorphism of rings.
pub proof fn lemma_fq12_power_q(x: Fq12, y: Fq12)
    requires
        x.wf(),
        y.wf(),
    ensures
        x@.add(y@).power(q() as nat) == x@.power(q() as nat).add(y@.power(q() as nat)),
        x@.mul(y@).power(q() as nat) == x@.power(q() as nat).mul(y@.power(q() as nat)),
{
    crate::model::power::lemma_power_sum(x@, y@);
    crate::model::power::lemma_power_product(x@, y@, q() as nat);
}

/// The twelfth power of the Frobenius map of Fq12 is the identity, as are
/// the second in Fq2 and the sixth in Fq6.
pub proof fn lemma_frobenius_period(x: Fq12)
    requires
        x.wf(),
    ensures
        x@.frobenius(12) == x@,
        x@.c0.frobenius(6) == x@.c0,
        x@.c0.c0.frobenius(2) == x@.c0.c0,
{
    x.lemma_canonical();
    lemma_frobenius_identity6(x@.c0, 12);
    lemma_frobenius_identity6(x@.c1, 12);
    lemma_frobenius_identity6(x@.c0, 6);
    lemma_reduce2(x@.c0.c0);
    lemma_times_one2(x@.c1.c0);
    lemma_times_one2(x@.c1.c1);
    lemma_times_one2(x@.c1.c2);
}

/// The product of a canonical element of Fq2 with one is the element.
proof fn lemma_times_one2(x: Fq2Value)
    requires
        x.canonical(),
    ensures
        x.mul(Fq2Value::one()) == x,
{
    assert(x.c0 * 1 == x.c0);
    assert(x.c1 * 1 == x.c1);
    assert(x.c0 * 0 == 0);
    assert(x.c1 * 0 == 0);
    lemma_reduce2(x);
}

/// A power of the Frobenius map of Fq6 whose number is a multiple of six is
/// the identity.
proof fn lemma_frobenius_identity6(x: Fq6Value, k: nat)
    requires
        x.canonical(),
        k % 6 == 0,
    ensures
        x.frobenius(k) == x,
{
    assert(k % 2 == 0);
    lemma_reduce2(x.c0);
    lemma_reduce2(x.c1);
    lemma_reduce2(x.c2);
    lemma_times_one2(x.c1);
    lemma_times_one2(x.c2);
}

/// A line of a pair that takes no part changes nothing.
proof fn lemma_untwist_inactive(f: Fq12Value, pairs: Seq<PairValue>, pos: int)
    requires
        forall|i: int| 0 <= i < pairs.len() ==> !(#[trigger] pairs[i]).active,
    ensures
        untwist_all(f, pairs, pos) == f,
    decreases pairs.len(),
{
    if pairs.len() > 0 {
        lemma_untwist_inactive(f, pairs.drop_last(), pos);
    }
}

/// Without a pair that takes part the accumulator stays one.
proof fn lemma_state_inactive(pairs: Seq<PairValue>, n: nat)
    requires
        forall|i: int| 0 <= i < pairs.len() ==> !(#[trigger] pairs[i]).active,
    ensures
        miller_state(pairs, n) == Fq12Value::one(),
    decreases n,
{
    if n > 0 {
        lemma_state_inactive(pairs, (n - 1) as nat);
        crate::model::final_exp::lemma_units12();
        let pos = crate::model::curve::lines_before((n - 1) as nat) as int;
        lemma_untwist_inactive(Fq12Value::one(), pairs, pos);
        lemma_untwist_inactive(Fq12Value::one(), pairs, pos + 1);
    }
}

/// The final exponentiation takes one to the neutral element.
pub proof fn lemma_final_exp_of_one()
    ensures
        Fq12Value::one().final_exp() == Fq12Value::one(),
{
    crate::model::final_exp::lemma_final_exp_one();
}

/// In the target group an element and its opposite add up to the neutral
/// element: the product of what the final exponentiation returns and its
/// conjugate is one.
pub proof fn lemma_gt_add_neg(f: Fq12)
    requires
        f.wf(),
    ensures
        f@.final_exp().mul(f@.final_exp().conjugate()) == Fq12Value::one(),
{
    f.lemma_canonical();
    if f@ == Fq12Value::zero() {
        crate::model::final_exp::lemma_zero_norms();
        crate::model::final_exp::lemma_units12();
    } else {
        crate::model::field::lemma_field12(f@);
        crate::model::opposite::lemma_final_exp_opposite(f@);
    }
}

/// The pairing of a list of pairs of which each holds a point at infinity,
/// on either side, is the neutral element. So is the pairing of no pair.
pub proof fn lemma_pairing_of_identities(pairs: Seq<(G1Affine, G2PairingAffine)>)
    requires
        forall|i: int|
            0 <= i < pairs.len() ==> (#[trigger] pairs[i]).0.is_infinity || pairs[i].1.is_infinity,
    ensures
        miller_loop(pair_values(pairs)) == Fq12Value::one(),
        miller_loop(pair_values(pairs)).final_exp() == Fq12Value::one(),
{
    let values = pair_values(pairs);
    assert forall|i: int| 0 <= i < values.len() implies !(#[trigger] values[i]).active by {
        assert(pairs[i].0.is_infinity || pairs[i].1.is_infinity);
    }
    lemma_state_inactive(values, 64);
    lemma_untwist_inactive(Fq12Value::one(), values, 89);
    lemma_untwist_inactive(Fq12Value::one(), values, 90);
    crate::model::final_exp::lemma_final_exp_one();
}

} // verus!
