//! The norms of the tower go through products, so that a product of
//! invertible elements is invertible.

use crate::model::base::q;
use crate::model::dodecic::Fq12Value;
use crate::model::quadratic::{
    lemma_reduce2, lemma_times_associates2, lemma_times_distributes2, Fq2Value,
};
use crate::model::frobenius::{lemma_lift6, lift6};
use crate::model::power::{lemma_product_laws, product};
use crate::model::sextic::{
    lemma_canonical_equal6, lemma_cofactors_product, lemma_eqv_minus6, lemma_eqv_times6,
    lemma_eqv_unary6, lemma_mul_laws6, lemma_reduce6, lemma_times_distributes6, Fq6Value,
};
use vstd::prelude::*;

verus! {

/// The product of two multiples is the multiple of the product.
pub proof fn lemma_scaled_times(a: Fq2Value, m: int, b: Fq2Value, n: int)
    ensures
        a.scaled(m).times(b.scaled(n)) == a.times(b).scaled(m * n),
{
    lemma_four(a.c0, m, b.c0, n);
    lemma_four(a.c1, m, b.c1, n);
    lemma_four(a.c0, m, b.c1, n);
    lemma_four(a.c1, m, b.c0, n);
    vstd::arithmetic::mul::lemma_mul_is_distributive_sub_other_way(
        m * n,
        a.c0 * b.c0,
        a.c1 * b.c1,
    );
    vstd::arithmetic::mul::lemma_mul_is_distributive_add_other_way(
        m * n,
        a.c0 * b.c1,
        a.c1 * b.c0,
    );
}

/// `(a m)(b n) = (a b)(m n)`.
proof fn lemma_four(a: int, m: int, b: int, n: int)
    ensures
        (a * m) * (b * n) == (a * b) * (m * n),
{
    vstd::arithmetic::mul::lemma_mul_is_associative(a, m, b * n);
    vstd::arithmetic::mul::lemma_mul_is_associative(m, b, n);
    vstd::arithmetic::mul::lemma_mul_is_commutative(m, b);
    vstd::arithmetic::mul::lemma_mul_is_associative(b, m, n);
    vstd::arithmetic::mul::lemma_mul_is_associative(a, b, m * n);
}

/// What differs by a multiple of `q` is the same in the field.
pub proof fn lemma_multiple_of_q(x: Fq2Value, y: Fq2Value, m: Fq2Value)
    requires
        x == y.plus(m.scaled(q())),
    ensures
        x.eqv(y),
{
    vstd::arithmetic::mul::lemma_mul_is_commutative(m.c0, q());
    vstd::arithmetic::mul::lemma_mul_is_commutative(m.c1, q());
    vstd::arithmetic::div_mod::lemma_mod_multiples_vanish(m.c0, y.c0, q());
    vstd::arithmetic::div_mod::lemma_mod_multiples_vanish(m.c1, y.c1, q());
}

/// The image under the second Frobenius map of Fq6, without reduction: the
/// coefficients times powers of a third root of one.
pub open spec fn twisted2(a: Fq6Value) -> Fq6Value {
    Fq6Value { c0: a.c0, c1: a.c1.scaled(0x30644e72e131a0295e6dd9e7e0acccb0c28f069fbb966e3de4bd44e5607cfd48int), c2: a.c2.scaled(0x59e26bcea0d48bacd4f263f1acdb5c4f5763473177fffffeint) }
}

/// The image under the fourth Frobenius map of Fq6, without reduction.
pub open spec fn twisted4(a: Fq6Value) -> Fq6Value {
    Fq6Value { c0: a.c0, c1: a.c1.scaled(0x59e26bcea0d48bacd4f263f1acdb5c4f5763473177fffffeint), c2: a.c2.scaled(0x30644e72e131a0295e6dd9e7e0acccb0c28f069fbb966e3de4bd44e5607cfd48int) }
}

/// The coefficient 0 of the product of the two images is the cofactor, in
/// the field.
proof fn lemma_cofactor_0(a: Fq6Value)
    ensures
        twisted2(a).times(twisted4(a)).c0.eqv(a.cofactors().c0),
{
    let (z0, z1, z2) = (a.c0, a.c1, a.c2);
    lemma_scaled_times(z0, 1int, z0, 1int);
    assert(1int * 1int == 1int);
    lemma_scaled_times(z1, 0x30644e72e131a0295e6dd9e7e0acccb0c28f069fbb966e3de4bd44e5607cfd48int, z2, 0x30644e72e131a0295e6dd9e7e0acccb0c28f069fbb966e3de4bd44e5607cfd48int);
    assert(0x30644e72e131a0295e6dd9e7e0acccb0c28f069fbb966e3de4bd44e5607cfd48int * 0x30644e72e131a0295e6dd9e7e0acccb0c28f069fbb966e3de4bd44e5607cfd48int == 0x925c4b8763cbf9c379f1713a80eaeff4fc9e8721d5dc20acbb83d93947d3847c722a42415b28b3150b7353ba54a63f51b1f4ed2c6b458ce66d95dcc58576440int);
    lemma_scaled_times(z2, 0x59e26bcea0d48bacd4f263f1acdb5c4f5763473177fffffeint, z1, 0x59e26bcea0d48bacd4f263f1acdb5c4f5763473177fffffeint);
    assert(0x59e26bcea0d48bacd4f263f1acdb5c4f5763473177fffffeint * 0x59e26bcea0d48bacd4f263f1acdb5c4f5763473177fffffeint == 0x1f8f3738320e219db11628af832f6b4166c5cdbba9f3c65136fac42645670a2d4c5fdfe52031d8e1cab2e33a20000004int);
    lemma_times_distributes2(z1, z2, z0);
    let m = z1.times(z2).scaled(0x30644e72e131a029048b6e193fd841053b852988dae41fe74e8211e9dd56a813int).times_xi();
    assert(z0.scaled(1) == z0);
    lemma_multiple_of_q(
        twisted2(a).times(twisted4(a)).c0,
        a.cofactors().c0,
        m,
    );
}

/// The coefficient 1 of the product of the two images is the cofactor, in
/// the field.
proof fn lemma_cofactor_1(a: Fq6Value)
    ensures
        twisted2(a).times(twisted4(a)).c1.eqv(a.cofactors().c1),
{
    let (z0, z1, z2) = (a.c0, a.c1, a.c2);
    lemma_scaled_times(z0, 1int, z1, 0x59e26bcea0d48bacd4f263f1acdb5c4f5763473177fffffeint);
    assert(1int * 0x59e26bcea0d48bacd4f263f1acdb5c4f5763473177fffffeint == 0x59e26bcea0d48bacd4f263f1acdb5c4f5763473177fffffeint);
    lemma_scaled_times(z1, 0x30644e72e131a0295e6dd9e7e0acccb0c28f069fbb966e3de4bd44e5607cfd48int, z0, 1int);
    assert(0x30644e72e131a0295e6dd9e7e0acccb0c28f069fbb966e3de4bd44e5607cfd48int * 1int == 0x30644e72e131a0295e6dd9e7e0acccb0c28f069fbb966e3de4bd44e5607cfd48int);
    lemma_times_distributes2(z0, z1, z0);
    lemma_scaled_times(z2, 0x59e26bcea0d48bacd4f263f1acdb5c4f5763473177fffffeint, z2, 0x30644e72e131a0295e6dd9e7e0acccb0c28f069fbb966e3de4bd44e5607cfd48int);
    assert(0x59e26bcea0d48bacd4f263f1acdb5c4f5763473177fffffeint * 0x30644e72e131a0295e6dd9e7e0acccb0c28f069fbb966e3de4bd44e5607cfd48int == 0x10fdac342d9d118ea05932d36365b92ed50fca0c8e8d0801badbc7e7fc04587928fec9e6bff155ff87c001a929107d1b48c37fb6ff060570int);
    let m = z0.times(z1).scaled(1int).plus(
        z2.times(z2).scaled(0x59e26bcea0d48bac2dfe208446c6d552f6cf3d167d932a99int).times_xi(),
    );
    assert(z0.scaled(1) == z0);
    lemma_multiple_of_q(
        twisted2(a).times(twisted4(a)).c1,
        a.cofactors().c1,
        m,
    );
}

/// The coefficient 2 of the product of the two images is the cofactor, in
/// the field.
proof fn lemma_cofactor_2(a: Fq6Value)
    ensures
        twisted2(a).times(twisted4(a)).c2.eqv(a.cofactors().c2),
{
    let (z0, z1, z2) = (a.c0, a.c1, a.c2);
    lemma_scaled_times(z0, 1int, z2, 0x30644e72e131a0295e6dd9e7e0acccb0c28f069fbb966e3de4bd44e5607cfd48int);
    assert(1int * 0x30644e72e131a0295e6dd9e7e0acccb0c28f069fbb966e3de4bd44e5607cfd48int == 0x30644e72e131a0295e6dd9e7e0acccb0c28f069fbb966e3de4bd44e5607cfd48int);
    lemma_scaled_times(z1, 0x30644e72e131a0295e6dd9e7e0acccb0c28f069fbb966e3de4bd44e5607cfd48int, z1, 0x59e26bcea0d48bacd4f263f1acdb5c4f5763473177fffffeint);
    assert(0x30644e72e131a0295e6dd9e7e0acccb0c28f069fbb966e3de4bd44e5607cfd48int * 0x59e26bcea0d48bacd4f263f1acdb5c4f5763473177fffffeint == 0x10fdac342d9d118ea05932d36365b92ed50fca0c8e8d0801badbc7e7fc04587928fec9e6bff155ff87c001a929107d1b48c37fb6ff060570int);
    lemma_scaled_times(z2, 0x59e26bcea0d48bacd4f263f1acdb5c4f5763473177fffffeint, z0, 1int);
    assert(0x59e26bcea0d48bacd4f263f1acdb5c4f5763473177fffffeint * 1int == 0x59e26bcea0d48bacd4f263f1acdb5c4f5763473177fffffeint);
    lemma_times_distributes2(z0, z2, z0);
    let m = z0.times(z2).scaled(1int).plus(
        z1.times(z1).scaled(0x59e26bcea0d48bac2dfe208446c6d552f6cf3d167d932a99int),
    );
    assert(z0.scaled(1) == z0);
    lemma_multiple_of_q(
        twisted2(a).times(twisted4(a)).c2,
        a.cofactors().c2,
        m,
    );
}

/// The product of the images under the second and the fourth Frobenius
/// map, without reduction, is the element of the cofactors, in the field.
pub proof fn lemma_cofactors_twisted(a: Fq6Value)
    ensures
        twisted2(a).times(twisted4(a)).eqv(a.cofactors()),
{
    lemma_cofactor_0(a);
    lemma_cofactor_1(a);
    lemma_cofactor_2(a);
}

/// An element of Fq2 as an element of Fq6.
pub open spec fn lift(c: Fq2Value) -> Fq6Value {
    Fq6Value { c0: c, c1: Fq2Value::zero(), c2: Fq2Value::zero() }
}

/// The lift goes through the product of the field.
pub proof fn lemma_lift_mul(a: Fq2Value, b: Fq2Value)
    ensures
        lift(a).mul(lift(b)) == lift(a.mul(b)),
{
    let z = Fq2Value::zero();
    lemma_times_associates2(a, z, z);
    lemma_times_associates2(b, z, z);
    lemma_times_associates2(z, z, z);
    vstd::arithmetic::div_mod::lemma_small_mod(0, q() as nat);
}

/// A product with an integer of the field, as a multiple.
proof fn lemma_scaled_eqv(z: Fq2Value, a: int)
    requires
        z.canonical(),
    ensures
        z.frobenius(2).mul(Fq2Value { c0: a, c1: 0 }).eqv(z.scaled(a)),
        z.frobenius(4).mul(Fq2Value { c0: a, c1: 0 }).eqv(z.scaled(a)),
{
    let k = Fq2Value { c0: a, c1: 0 };
    lemma_reduce2(z);
    lemma_reduce2(z.times(k));
    lemma_times_associates2(z, z, z);
    assert(z.c0 * 0 == 0 && z.c1 * 0 == 0);
    assert(z.times(k) == z.scaled(a));
}

/// The images under the second and the fourth Frobenius map of Fq6 have
/// the coefficients of the element times powers of a third root of one.
pub proof fn lemma_twisted6(a: Fq6Value)
    requires
        a.canonical(),
    ensures
        a.frobenius(2).eqv(twisted2(a)),
        a.frobenius(4).eqv(twisted4(a)),
{
    lemma_reduce2(a.c0);
    assert(crate::params::frobenius_coeff_fq6_c1(2) == (Fq2Value { c0: 0x30644e72e131a0295e6dd9e7e0acccb0c28f069fbb966e3de4bd44e5607cfd48int, c1: 0 }));
    assert(crate::params::frobenius_coeff_fq6_c2(2) == (Fq2Value { c0: 0x59e26bcea0d48bacd4f263f1acdb5c4f5763473177fffffeint, c1: 0 }));
    assert(crate::params::frobenius_coeff_fq6_c1(4) == (Fq2Value { c0: 0x59e26bcea0d48bacd4f263f1acdb5c4f5763473177fffffeint, c1: 0 }));
    assert(crate::params::frobenius_coeff_fq6_c2(4) == (Fq2Value { c0: 0x30644e72e131a0295e6dd9e7e0acccb0c28f069fbb966e3de4bd44e5607cfd48int, c1: 0 }));
    lemma_scaled_eqv(a.c1, 0x30644e72e131a0295e6dd9e7e0acccb0c28f069fbb966e3de4bd44e5607cfd48int);
    lemma_scaled_eqv(a.c1, 0x59e26bcea0d48bacd4f263f1acdb5c4f5763473177fffffeint);
    lemma_scaled_eqv(a.c2, 0x30644e72e131a0295e6dd9e7e0acccb0c28f069fbb966e3de4bd44e5607cfd48int);
    lemma_scaled_eqv(a.c2, 0x59e26bcea0d48bacd4f263f1acdb5c4f5763473177fffffeint);
}

/// An element of Fq6 times its two conjugates over Fq2 is its norm.
pub proof fn lemma_norm_conjugates(a: Fq6Value)
    requires
        a.canonical(),
    ensures
        a.mul(a.frobenius(2).mul(a.frobenius(4))) == lift(a.norm()),
{
    let (f2, f4) = (a.frobenius(2), a.frobenius(4));
    let k = a.cofactors();
    lemma_twisted6(a);
    lemma_eqv_times6(f2, f4, twisted2(a), twisted4(a));
    lemma_cofactors_twisted(a);
    lemma_eqv_times6(a, f2.mul(f4), a, k);
    lemma_cofactors_product(a);
    let raw = a.c1.times(k.c2).plus(a.c2.times(k.c1)).times_xi().plus(a.c0.times(k.c0));
    lemma_reduce2(raw);
    lemma_reduce6(a.times(f2.mul(f4)));
    vstd::arithmetic::div_mod::lemma_small_mod(0, q() as nat);
    lemma_canonical_equal6(a.mul(f2.mul(f4)), lift(a.norm()));
}

/// The Frobenius maps of Fq6 go through products.
pub proof fn lemma_frobenius_product6(a: Fq6Value, b: Fq6Value, k: nat)
    requires
        a.canonical(),
        b.canonical(),
    ensures
        a.mul(b).frobenius(k) == a.frobenius(k).mul(b.frobenius(k)),
{
    vstd::arithmetic::div_mod::lemma_small_mod(0, q() as nat);
    lemma_reduce6(a.times(b));
    crate::model::frobenius::lemma_frobenius_product(lift6(a), lift6(b), k);
    reveal(product);
    lemma_lift6(a, b);
    lemma_lift6(a.frobenius(k), b.frobenius(k));
    lemma_lift_frobenius(a, k);
    lemma_lift_frobenius(b, k);
    lemma_lift_frobenius(a.mul(b), k);
    assert(lift6(a).mul(lift6(b)) == lift6(a.mul(b)));
    assert(lift6(a.frobenius(k)).mul(lift6(b.frobenius(k))) == lift6(
        a.frobenius(k).mul(b.frobenius(k)),
    ));
}

/// The lift of Fq6 goes through the Frobenius maps.
pub proof fn lemma_lift_frobenius(a: Fq6Value, k: nat)
    ensures
        lift6(a).frobenius(k) == lift6(a.frobenius(k)),
{
    let z = Fq2Value::zero();
    vstd::arithmetic::div_mod::lemma_small_mod(0, q() as nat);
    crate::model::quadratic::lemma_mul_laws2(
        crate::params::frobenius_coeff_fq6_c1((k % 6) as int),
        z,
        z,
    );
    crate::model::quadratic::lemma_mul_laws2(
        crate::params::frobenius_coeff_fq6_c2((k % 6) as int),
        z,
        z,
    );
    crate::model::quadratic::lemma_mul_laws2(
        crate::params::frobenius_coeff_fq12_c1((k % 12) as int),
        z,
        z,
    );
    assert(z.frobenius(k) == z);
    assert(Fq6Value::zero().frobenius(k) == Fq6Value::zero());
    lemma_times_associates2(z, crate::params::frobenius_coeff_fq12_c1((k % 12) as int), z);
}

/// The norm from Fq6 down to Fq2 goes through products.
pub proof fn lemma_norm_product6(a: Fq6Value, b: Fq6Value)
    requires
        a.canonical(),
        b.canonical(),
    ensures
        a.mul(b).norm() == a.norm().mul(b.norm()),
{
    let ab = a.mul(b);
    lemma_reduce6(a.times(b));
    lemma_norm_conjugates(a);
    lemma_norm_conjugates(b);
    lemma_norm_conjugates(ab);
    lemma_frobenius_product6(a, b, 2);
    lemma_frobenius_product6(a, b, 4);
    let (a2, a4, b2, b4) = (a.frobenius(2), a.frobenius(4), b.frobenius(2), b.frobenius(4));
    // (a2 b2)(a4 b4) = (a2 a4)(b2 b4), and (a b)((a2 a4)(b2 b4)) = (a (a2 a4))(b (b2 b4))
    lemma_four6(a2, b2, a4, b4);
    lemma_four6(a, b, a2.mul(a4), b2.mul(b4));
    lemma_lift_mul(a.norm(), b.norm());
}

/// `(a b)(c d) = (a c)(b d)` in Fq6.
pub proof fn lemma_four6(a: Fq6Value, b: Fq6Value, c: Fq6Value, d: Fq6Value)
    ensures
        a.mul(b).mul(c.mul(d)) == a.mul(c).mul(b.mul(d)),
{
    lemma_mul_laws6(a, b, c.mul(d));
    lemma_mul_laws6(b, c, d);
    lemma_mul_laws6(c, b, d);
    lemma_mul_laws6(a, c, b.mul(d));
}

/// The norm of Fq12 down to Fq6, without reduction.
pub open spec fn norm_raw(x: Fq12Value) -> Fq6Value {
    x.c0.times(x.c0).minus(x.c1.times(x.c1).times_v())
}

/// An element of Fq12 times its conjugate is its norm, and the conjugate
/// goes through products.
#[verifier::rlimit(50)]
pub proof fn lemma_norm_conjugate(x: Fq12Value, y: Fq12Value)
    ensures
        product(x, x.conj()) == lift6(norm_raw(x)),
        product(x, y).conj() == product(x.conj(), y.conj()),
{
    reveal(product);
    crate::model::dodecic::lemma_times_negated6(x.c1, x.c1);
    crate::model::dodecic::lemma_times_negated6(x.c0, x.c1);
    crate::model::dodecic::lemma_times_negated6(x.c0, y.c1);
    crate::model::dodecic::lemma_times_negated6(x.c1, y.c1);
    crate::model::dodecic::lemma_times_negated6(x.c1.negated(), y.c1);
    lemma_times_distributes6(x.c0, x.c1, x.c0);
    lemma_times_distributes6(x.c1, y.c1, x.c1.negated());
    lemma_times_distributes6(x.c1, y.c0, x.c1.negated());
    crate::model::dodecic::lemma_times_negated6(y.c0, x.c1);
    lemma_times_distributes6(x.c1.negated(), y.c0, x.c1);
    lemma_times_distributes6(x.c1.negated(), y.c1, x.c1);
    crate::model::dodecic::lemma_times_negated6(y.c1, x.c1);
    assert(x.c1.negated().negated() == x.c1);
}

/// The norm from Fq12 down to Fq6 goes through products, without reduction.
#[verifier::rlimit(50)]
proof fn lemma_norm_product_raw(x: Fq12Value, y: Fq12Value)
    ensures
        norm_raw(x.times(y)) == norm_raw(x).times(norm_raw(y)),
{
    let xy = product(x, y);
    lemma_norm_conjugate(x, y);
    lemma_norm_conjugate(y, x);
    lemma_norm_conjugate(xy, x);
    // (x y)(x' y') = x (y (x' y')) = x ((y x') y') = x ((x' y) y') = x (x' (y y'))
    lemma_product_laws(x, y, product(x.conj(), y.conj()));
    lemma_product_laws(y, x.conj(), y.conj());
    lemma_product_laws(x.conj(), y, y.conj());
    lemma_product_laws(x, x.conj(), product(y, y.conj()));
    assert(product(xy, xy.conj()) == product(product(x, x.conj()), product(y, y.conj())));
    lemma_lift6(norm_raw(x), norm_raw(y));
    assert(lift6(norm_raw(xy)) == lift6(norm_raw(x).times(norm_raw(y))));
    assert(xy == x.times(y)) by {
        reveal(product);
    }
}

/// The norm from Fq12 down to Fq6 goes through products.
#[verifier::rlimit(50)]
pub proof fn lemma_norm_product12(x: Fq12Value, y: Fq12Value)
    ensures
        x.mul(y).norm() == x.norm().mul(y.norm()),
{
    lemma_norm_product_raw(x, y);
    crate::model::dodecic::lemma_reduce12(x.times(y));
    lemma_norm_eqv(x.mul(y), x.times(y));
    lemma_reduce6(norm_raw(x));
    lemma_reduce6(norm_raw(y));
    lemma_eqv_times6(x.norm(), y.norm(), norm_raw(x), norm_raw(y));
    lemma_reduce6(norm_raw(x.mul(y)));
    lemma_reduce6(x.norm().times(y.norm()));
    assert(x.mul(y).norm() == norm_raw(x.mul(y)).reduce());
    assert(x.norm() == norm_raw(x).reduce());
    assert(y.norm() == norm_raw(y).reduce());
    lemma_canonical_equal6(x.mul(y).norm(), x.norm().mul(y.norm()));
}

/// The norm respects `eqv`.
proof fn lemma_norm_eqv(x: Fq12Value, y: Fq12Value)
    requires
        x.eqv(y),
    ensures
        norm_raw(x).eqv(norm_raw(y)),
{
    lemma_eqv_times6(x.c0, x.c0, y.c0, y.c0);
    lemma_eqv_times6(x.c1, x.c1, y.c1, y.c1);
    lemma_eqv_unary6(x.c1.times(x.c1), y.c1.times(y.c1));
    lemma_eqv_minus6(
        x.c0.times(x.c0),
        x.c1.times(x.c1).times_v(),
        y.c0.times(y.c0),
        y.c1.times(y.c1).times_v(),
    );
}

/// A product of invertible elements of Fq12 is invertible.
#[verifier::rlimit(50)]
pub proof fn lemma_invertible_product(x: Fq12Value, y: Fq12Value)
    requires
        x.invertible(),
        y.invertible(),
    ensures
        x.mul(y).invertible(),
{
    lemma_norm_product12(x, y);
    lemma_reduce6(norm_raw(x));
    lemma_reduce6(norm_raw(y));
    lemma_norm_product6(x.norm(), y.norm());
    lemma_reduce2(
        x.norm().c1.times(x.norm().cofactors().c2).plus(
            x.norm().c2.times(x.norm().cofactors().c1),
        ).times_xi().plus(x.norm().c0.times(x.norm().cofactors().c0)),
    );
    lemma_reduce2(
        y.norm().c1.times(y.norm().cofactors().c2).plus(
            y.norm().c2.times(y.norm().cofactors().c1),
        ).times_xi().plus(y.norm().c0.times(y.norm().cofactors().c0)),
    );
    if x.mul(y).norm().norm() == Fq2Value::zero() {
        crate::model::quadratic::lemma_no_zero_divisors2(x.norm().norm(), y.norm().norm());
    }
}

} // verus!
