//! The tower is a tower of fields: an element of Fq6 or Fq12 other than zero
//! has a norm other than zero, because `xi = 9 + u` is neither a square nor
//! a cube in Fq2.

use crate::model::base::q;
use crate::model::dodecic::Fq12Value;
use crate::model::exponents::q_power;
use crate::model::frobenius::{lemma_lift2, lemma_lift2_power, lemma_lift6_power, lift2, lift6};
use crate::model::power::product;
use crate::model::quadratic::{
    lemma_inverse2, lemma_mul_laws2, lemma_no_zero_divisors2, lemma_reduce2, Fq2Value,
};
use crate::model::coefficients::lemma_follows;
use crate::model::norm::{
    lemma_cofactors_twisted, lemma_four6, lemma_frobenius_product6, lemma_lift_frobenius,
    lemma_norm_conjugates, lemma_twisted6, lift, twisted2, twisted4,
};
use crate::model::sextic::{
    lemma_canonical_equal6, lemma_eqv_times6, lemma_mul_laws6, lemma_reduce6, Fq6Value,
};
use crate::model::xi_power::sixth;
use vstd::prelude::*;

verus! {

/// The lift of Fq2 into Fq12 goes through the product and the powers of
/// the field.
pub proof fn lemma_lift_field(a: Fq2Value, b: Fq2Value, n: nat)
    ensures
        lift2(a).mul(lift2(b)) == lift2(a.mul(b)),
        lift2(a).power(n) == lift2(a.power(n)),
{
    reveal(product);
    lemma_lift2(a, b);
    vstd::arithmetic::div_mod::lemma_small_mod(0, q() as nat);
    lemma_lift2_power(a, n);
    lemma_lift6_power(lift2(a).c0, n);
    assert(lift2(a) == lift6(lift2(a).c0));
    assert(lift2(a.power(n)) == lift6(lift2(a.power(n)).c0));
}

/// The laws of the powers in Fq2.
#[verifier::rlimit(50)]
pub proof fn lemma_power_laws2(x: Fq2Value, y: Fq2Value, a: nat, b: nat)
    ensures
        x.power(a + b) == x.power(a).mul(x.power(b)),
        x.power(a * b) == x.power(a).power(b),
        x.mul(y).power(a) == x.power(a).mul(y.power(a)),
        x.canonical() ==> x.power(1) == x,
{
    lemma_lift_field(x, y, a + b);
    lemma_lift_field(x, y, a);
    lemma_lift_field(x, y, b);
    lemma_lift_field(x, y, a * b);
    lemma_lift_field(x.power(a), x.power(b), b);
    lemma_lift_field(x.mul(y), y, a);
    lemma_lift_field(y, y, a);
    lemma_lift_field(x.power(a), y.power(a), a);
    crate::model::homomorphism::lemma_power_adds(lift2(x), a, b);
    crate::model::power::lemma_power_multiplies(lift2(x), a, b);
    crate::model::power::lemma_power_product(lift2(x), lift2(y), a);
    assert(x.power(0) == Fq2Value::one());
    assert(x.power(1) == x.mul(x.power(0)));
    lemma_mul_laws2(x, x, x);
}

/// The power of an element of Fq2 other than zero with exponent `q^2 - 1`
/// is one.
#[verifier::rlimit(50)]
pub proof fn lemma_unit_order2(c: Fq2Value)
    requires
        c.canonical(),
        c != Fq2Value::zero(),
    ensures
        c.power((q_power(2) - 1) as nat) == Fq2Value::one(),
{
    crate::model::exponents::lemma_q_powers();
    let m = (q_power(2) - 1) as nat;
    crate::model::frobenius::lemma_frobenius2(c, 2);
    lemma_reduce2(c);
    lemma_power_laws2(c, c, m, 1);
    lemma_inverse2(c);
    let p = c.power(m);
    // p c = c, so that p = p (c c^-1) = (p c) c^-1 = c c^-1 = 1
    lemma_mul_laws2(p, c, c.inv());
    lemma_lift_field(c, c, m);
    crate::model::power::lemma_power_raised(lift2(c), m);
    assert(p.canonical());
    lemma_mul_laws2(p, p, p);
}

/// The norm of `xi^((q - 1) / 6)` down to Fq, a sixth root of one.
pub open spec fn sixth_root() -> Fq2Value {
    Fq2Value { c0: 0x30644e72e131a0295e6dd9e7e0acccb0c28f069fbb966e3de4bd44e5607cfd49int, c1: 0int }
}

/// A product in Fq2 from the reduced products of the coefficients.
proof fn lemma_mul_literal(x: Fq2Value, y: Fq2Value, z: Fq2Value, p: (int, int, int, int))
    requires
        p.0 == (x.c0 * y.c0) % q(),
        p.1 == (x.c1 * y.c1) % q(),
        p.2 == (x.c0 * y.c1) % q(),
        p.3 == (x.c1 * y.c0) % q(),
        z.c0 == (p.0 + q() - p.1) % q(),
        z.c1 == (p.2 + p.3) % q(),
    ensures
        x.mul(y) == z,
{
    crate::model::frobenius::lemma_mul_value(x, y, z);
}

/// The powers of `xi` with the exponents `(q^2 - 1) / 6`, `(q^2 - 1) / 3`
/// and `(q^2 - 1) / 2`: a sixth root of one, a third root of one and minus
/// one, none of which is one.
#[verifier::rlimit(50)]
pub proof fn lemma_xi_roots()
    ensures
        Fq2Value::xi().power(sixth() * (q_power(1) + 1)) == sixth_root(),
        Fq2Value::xi().power(sixth() * (q_power(1) + 1) * 2) == (Fq2Value { c0: 0x30644e72e131a0295e6dd9e7e0acccb0c28f069fbb966e3de4bd44e5607cfd48int, c1: 0int }),
        Fq2Value::xi().power(sixth() * (q_power(1) + 1) * 3) == (Fq2Value { c0: 0x30644e72e131a029b85045b68181585d97816a916871ca8d3c208c16d87cfd46int, c1: 0int }),
        sixth() * (q_power(1) + 1) * 6 == q_power(2) - 1,
{
    crate::model::exponents::lemma_q_powers();
    let x = Fq2Value::xi();
    let g = crate::params::frobenius_coeff_fq12_c1(1);
    let n = sixth_root();
    let m = sixth();
    let e = (q_power(1) + 1) as nat;
    // xi^((q - 1) / 6)
    reveal(crate::model::frobenius::xi_power_is);
    crate::model::xi_power::lemma_xi_power();
    crate::model::power::lemma_power_raised(lift2(x), m);
    lemma_lift_field(x, x, m);
    crate::model::dodecic::lemma_canonical_equal12(lift2(x).power(m), lift2(g));
    assert(x.power(m) == g);
    // its power with exponent q + 1 is its norm
    crate::model::frobenius::lemma_frobenius2(g, 1);
    lemma_power_laws2(g, g, q_power(1), 1);
    reveal(crate::model::coefficients::follows);
    lemma_follows(
        Fq2Value { c0: 0x1284b71c2865a7dfe8b99fdd76e68b605c521e08292f2176d60b35dadcc9e470int, c1: 0x246996f3b4fae7e6a6327cfe12150b8e747992778eeec7e5ca5cf05f80f362acint },
        Fq2Value { c0: 0x1284b71c2865a7dfe8b99fdd76e68b605c521e08292f2176d60b35dadcc9e470int, c1: 0xbfab77f2c36b843121dc8b86f6c4ccf2307d819d98302a771c39bb757899a9bint },
        Fq2Value { c0: 0x1284b71c2865a7dfe8b99fdd76e68b605c521e08292f2176d60b35dadcc9e470int, c1: 0x246996f3b4fae7e6a6327cfe12150b8e747992778eeec7e5ca5cf05f80f362acint },
        Fq2Value { c0: 0x30644e72e131a0295e6dd9e7e0acccb0c28f069fbb966e3de4bd44e5607cfd49int, c1: 0int },
        (
            0x300bcb0598555910553ce3126b033efa3d0de4d83f2cd0a53f506d1e3bf62943int,
            0x300bcb0598555910af1f4ee10bd7caa7120048c9ec082cf496b3b44fb3f62941int,
            0xb64f2a830f5d71025d26645ebad03ca1957150e85be4ee70b32ea8e3207e5d1int,
            0x24ff5bcab03bc919927ddf7095d454937e2a5582e2b37ba630eda188a6751776int,
        ),
    );
    assert(g.power(e) == n);
    lemma_power_laws2(x, x, m, e);
    // the square and the cube of the norm
    lemma_power_laws2(x, x, m * e, 2);
    lemma_power_laws2(x, x, m * e, 3);
    lemma_power_laws2(n, n, 1, 1);
    lemma_power_laws2(n, n, 2, 1);
    lemma_mul_literal(
        Fq2Value { c0: 0x30644e72e131a0295e6dd9e7e0acccb0c28f069fbb966e3de4bd44e5607cfd49int, c1: 0int },
        Fq2Value { c0: 0x30644e72e131a0295e6dd9e7e0acccb0c28f069fbb966e3de4bd44e5607cfd49int, c1: 0int },
        Fq2Value { c0: 0x30644e72e131a0295e6dd9e7e0acccb0c28f069fbb966e3de4bd44e5607cfd48int, c1: 0int },
        (0x30644e72e131a0295e6dd9e7e0acccb0c28f069fbb966e3de4bd44e5607cfd48int, 0int, 0int, 0int),
    );
    lemma_mul_literal(
        Fq2Value { c0: 0x30644e72e131a0295e6dd9e7e0acccb0c28f069fbb966e3de4bd44e5607cfd48int, c1: 0int },
        Fq2Value { c0: 0x30644e72e131a0295e6dd9e7e0acccb0c28f069fbb966e3de4bd44e5607cfd49int, c1: 0int },
        Fq2Value { c0: 0x30644e72e131a029b85045b68181585d97816a916871ca8d3c208c16d87cfd46int, c1: 0int },
        (0x30644e72e131a029b85045b68181585d97816a916871ca8d3c208c16d87cfd46int, 0int, 0int, 0int),
    );
    assert(0x810b7bdd032f006f40d60f3c0403964ee9591c2e6bda1c234b017592414d4e1nat * (0x30644e72e131a029b85045b68181585d97816a916871ca8d3c208c16d87cfd47nat + 1) * 6 == 0x925c4b8763cbf9c599a6f7c0348d21cb00b85511637560626edfa5c34c6b38d04689e957a1242c84a50189c6d96cadca602072d09eac1013b5458a2275d69b1nat - 1);
}

/// `xi` is no cube in Fq2.
pub proof fn lemma_xi_not_cube(c: Fq2Value)
    requires
        c.canonical(),
    ensures
        c.mul(c).mul(c) != Fq2Value::xi(),
{
    let x = Fq2Value::xi();
    let e = sixth() * (q_power(1) + 1);
    lemma_xi_roots();
    lemma_small();
    if c == Fq2Value::zero() {
        lemma_mul_laws2(c, c, c);
        lemma_mul_laws2(c.mul(c), c, c);
    } else if c.mul(c).mul(c) == x {
        // c^3 = xi, so that xi^((q^2 - 1) / 3) = c^(q^2 - 1) = 1
        lemma_unit_order2(c);
        lemma_power_laws2(c, c, 1, 1);
        lemma_power_laws2(c, c, 2, 1);
        assert(c.power(3) == x);
        lemma_power_laws2(c, c, 3, e * 2);
        assert(3 * (e * 2) == q_power(2) - 1) by (nonlinear_arith)
            requires
                e * 6 == q_power(2) - 1,
        ;
    }
}

/// `xi` is no square in Fq2.
pub proof fn lemma_xi_not_square(c: Fq2Value)
    requires
        c.canonical(),
    ensures
        c.mul(c) != Fq2Value::xi(),
{
    let x = Fq2Value::xi();
    let e = sixth() * (q_power(1) + 1);
    lemma_xi_roots();
    lemma_small();
    if c == Fq2Value::zero() {
        lemma_mul_laws2(c, c, c);
    } else if c.mul(c) == x {
        lemma_unit_order2(c);
        lemma_power_laws2(c, c, 1, 1);
        assert(c.power(2) == x);
        lemma_power_laws2(c, c, 2, e * 3);
        assert(2 * (e * 3) == q_power(2) - 1) by (nonlinear_arith)
            requires
                e * 6 == q_power(2) - 1,
        ;
    }
}

/// Small numbers are their own remainders.
proof fn lemma_small()
    ensures
        0int % q() == 0,
        1int % q() == 1,
        9int % q() == 9,
{
    vstd::arithmetic::div_mod::lemma_small_mod(0, q() as nat);
    vstd::arithmetic::div_mod::lemma_small_mod(1, q() as nat);
    vstd::arithmetic::div_mod::lemma_small_mod(9, q() as nat);
}

/// The product of the two conjugates of an element of Fq6 over Fq2.
pub open spec fn conjugates(a: Fq6Value) -> Fq6Value {
    a.frobenius(2).mul(a.frobenius(4))
}

/// The product with `xi`, as a product.
proof fn lemma_nonres(x: Fq2Value)
    ensures
        x.mul_by_nonres() == x.mul(Fq2Value::xi()),
{
    crate::model::quadratic::lemma_times_xi2(x, x);
}

/// What reduces to zero as a difference is the same in the field.
proof fn lemma_difference_zero(u: Fq2Value, w: Fq2Value)
    requires
        u.minus(w).reduce() == Fq2Value::zero(),
    ensures
        u.reduce() == w.reduce(),
{
    vstd::arithmetic::div_mod::lemma_sub_mod_noop(u.c0, w.c0, q());
    vstd::arithmetic::div_mod::lemma_sub_mod_noop(u.c1, w.c1, q());
    vstd::arithmetic::div_mod::lemma_mod_bound(u.c0, q());
    vstd::arithmetic::div_mod::lemma_mod_bound(w.c0, q());
    vstd::arithmetic::div_mod::lemma_mod_bound(u.c1, q());
    vstd::arithmetic::div_mod::lemma_mod_bound(w.c1, q());
    let (a, b) = (u.c0 % q(), w.c0 % q());
    let (c, d) = (u.c1 % q(), w.c1 % q());
    if a != b {
        if a > b {
            vstd::arithmetic::div_mod::lemma_small_mod((a - b) as nat, q() as nat);
        } else {
            vstd::arithmetic::div_mod::lemma_mod_add_multiples_vanish(a - b, q());
            vstd::arithmetic::div_mod::lemma_small_mod((a - b + q()) as nat, q() as nat);
        }
    }
    if c != d {
        if c > d {
            vstd::arithmetic::div_mod::lemma_small_mod((c - d) as nat, q() as nat);
        } else {
            vstd::arithmetic::div_mod::lemma_mod_add_multiples_vanish(c - d, q());
            vstd::arithmetic::div_mod::lemma_small_mod((c - d + q()) as nat, q() as nat);
        }
    }
}

/// The cube of a product is the product of the cubes, in Fq2.
proof fn lemma_cube_product(a: Fq2Value, b: Fq2Value)
    ensures
        a.mul(b).mul(a.mul(b)).mul(a.mul(b)) == a.mul(a).mul(a).mul(b.mul(b).mul(b)),
{
    let ab = a.mul(b);
    // (a b)(a b) = (a a)(b b)
    lemma_mul_laws2(a, b, ab);
    lemma_mul_laws2(b, a, b);
    lemma_mul_laws2(a, b, b);
    lemma_mul_laws2(a, a, b.mul(b));
    assert(ab.mul(ab) == a.mul(a).mul(b.mul(b)));
    // ((a a)(b b))(a b) = ((a a) a)((b b) b)
    let (aa, bb) = (a.mul(a), b.mul(b));
    lemma_mul_laws2(aa, bb, ab);
    lemma_mul_laws2(bb, a, b);
    lemma_mul_laws2(a, bb, b);
    lemma_mul_laws2(aa, a, bb.mul(b));
}

/// An element of Fq6 other than zero has cofactors that are not all zero.
#[verifier::rlimit(50)]
pub proof fn lemma_cofactors_not_zero(b: Fq6Value)
    requires
        b.canonical(),
        b != Fq6Value::zero(),
    ensures
        b.cofactors().reduce() != Fq6Value::zero(),
{
    let z = Fq2Value::zero();
    let x = Fq2Value::xi();
    let (b0, b1, b2) = (b.c0, b.c1, b.c2);
    let k = b.cofactors();
    if k.reduce() == Fq6Value::zero() {
        lemma_small();
        lemma_difference_zero(b0.times(b0), b1.times(b2).times_xi());
        lemma_difference_zero(b2.times(b2).times_xi(), b0.times(b1));
        lemma_difference_zero(b1.times(b1), b0.times(b2));
        lemma_reduce2(b1.times(b2));
        lemma_reduce2(b2.times(b2));
        crate::model::quadratic::lemma_eqv_unary2(b1.mul(b2), b1.times(b2));
        crate::model::quadratic::lemma_eqv_unary2(b2.mul(b2), b2.times(b2));
        lemma_reduce2(b1.mul(b2).times_xi());
        lemma_reduce2(b2.mul(b2).times_xi());
        lemma_reduce2(b1.times(b2).times_xi());
        lemma_reduce2(b2.times(b2).times_xi());
        crate::model::quadratic::lemma_canonical_equal2(
            b1.mul(b2).mul_by_nonres(),
            b1.times(b2).times_xi().reduce(),
        );
        crate::model::quadratic::lemma_canonical_equal2(
            b2.mul(b2).mul_by_nonres(),
            b2.times(b2).times_xi().reduce(),
        );
        lemma_nonres(b1.mul(b2));
        lemma_nonres(b2.mul(b2));
        // the three equations
        assert(b0.mul(b0) == b1.mul(b2).mul(x));
        assert(b2.mul(b2).mul(x) == b0.mul(b1));
        assert(b1.mul(b1) == b0.mul(b2));
        lemma_mul_laws2(b0, b0, b0);
        lemma_mul_laws2(b1, b1, b1);
        lemma_mul_laws2(b2, b2, b2);
        if b1 == z {
            lemma_mul_laws2(z, z, z);
            lemma_mul_laws2(b2, z, z);
            lemma_mul_laws2(b0, z, z);
            lemma_mul_laws2(x, z, z);
            assert(b0.mul(b0) == z);
            lemma_no_zero_divisors2(b0, b0);
            assert(b2.mul(b2).mul(x) == z);
            lemma_no_zero_divisors2(b2.mul(b2), x);
            lemma_no_zero_divisors2(b2, b2);
        } else {
            let i = b1.inv();
            lemma_inverse2(b1);
            lemma_reduce2(b1.conj().scaled(crate::model::base::fq_inv(b1.norm())));
            let c = b0.mul(i);
            lemma_mul_laws2(b0, i, i);
            lemma_cube_product(b0, i);
            lemma_cube_product(b1, i);
            let one = Fq2Value::one();
            lemma_mul_laws2(one, one, one);
            assert(b1.mul(b1).mul(b1).mul(i.mul(i).mul(i)) == one);
            // b0^3 = (b0 b0) b0 = ((b1 b2) x) b0 = x (b1 (b0 b2)) = x (b1 (b1 b1))
            lemma_mul_laws2(b1.mul(b2), x, b0);
            lemma_mul_laws2(x, b0, b1.mul(b2));
            lemma_mul_laws2(x, b1.mul(b2), b0);
            lemma_mul_laws2(b1, b2, b0);
            lemma_mul_laws2(b2, b0, b0);
            lemma_mul_laws2(b0, b2, b0);
            lemma_mul_laws2(b1, b1, b1);
            let t = b1.mul(b1).mul(b1);
            assert(b0.mul(b0).mul(b0) == x.mul(t));
            let j = i.mul(i).mul(i);
            lemma_mul_laws2(x, t, j);
            lemma_mul_laws2(x, one, one);
            assert(c.mul(c).mul(c) == x);
            lemma_xi_not_cube(c);
        }
    }
}

/// The product of the conjugates of an element of Fq6 is the element of
/// its cofactors, and the conjugates of that are the element times its
/// norm.
#[verifier::rlimit(50)]
pub proof fn lemma_conjugates(a: Fq6Value)
    requires
        a.canonical(),
    ensures
        conjugates(a) == a.cofactors().reduce(),
        conjugates(conjugates(a)) == a.mul(lift(a.norm())),
        a.mul(conjugates(a)) == lift(a.norm()),
        conjugates(a).canonical(),
{
    let (f2, f4) = (a.frobenius(2), a.frobenius(4));
    let c = conjugates(a);
    lemma_twisted6(a);
    lemma_eqv_times6(f2, f4, twisted2(a), twisted4(a));
    lemma_cofactors_twisted(a);
    lemma_reduce6(a.cofactors());
    lemma_reduce6(f2.times(f4));
    lemma_canonical_equal6(c, a.cofactors().reduce());
    lemma_norm_conjugates(a);
    // the conjugates of the product of the conjugates
    crate::model::frobenius::lemma_frobenius_canonical6(a, 2);
    crate::model::frobenius::lemma_frobenius_canonical6(a, 4);
    lemma_frobenius_product6(f2, f4, 2);
    lemma_frobenius_product6(f2, f4, 4);
    lemma_frobenius_adds6(a, 2, 2);
    lemma_frobenius_adds6(a, 4, 2);
    lemma_frobenius_adds6(a, 2, 4);
    lemma_frobenius_adds6(a, 4, 4);
    lemma_frobenius_adds6(a, 6, 2);
    lemma_period6(a);
    assert(c.frobenius(2) == f4.mul(a));
    assert(c.frobenius(4) == a.mul(f2));
    // (f4 a)(a f2) = a (a (f2 f4))
    lemma_four6(f4, a, a, f2);
    lemma_mul_laws6(f4, a, a);
    lemma_mul_laws6(a, f2, f4);
    lemma_mul_laws6(f2, a, f4);
    lemma_mul_laws6(a, f4, a.mul(f2));
    lemma_mul_laws6(f4, a, f2);
    lemma_mul_laws6(a, f2, f4);
    lemma_mul_laws6(f2, f4, a);
    lemma_mul_laws6(a, a, f2.mul(f4));
    lemma_mul_laws6(a, f4.mul(f2), a);
    lemma_mul_laws6(f4, f2, a);
    lemma_mul_laws6(a.mul(f4), a, f2);
    lemma_mul_laws6(a, f4, a);
    lemma_mul_laws6(a, a.mul(f4), f2);
    lemma_mul_laws6(a, f4, f2);
}

/// Frobenius maps of Fq6 one after another are one Frobenius map.
pub proof fn lemma_frobenius_adds6(a: Fq6Value, j: nat, k: nat)
    requires
        a.canonical(),
    ensures
        a.frobenius(j).frobenius(k) == a.frobenius(j + k),
{
    vstd::arithmetic::div_mod::lemma_small_mod(0, q() as nat);
    crate::model::frobenius::lemma_frobenius_adds(lift6(a), j, k);
    lemma_lift_frobenius(a, j);
    lemma_lift_frobenius(a.frobenius(j), k);
    lemma_lift_frobenius(a, j + k);
}

/// The sixth Frobenius map of Fq6 is the identity, on canonical elements.
pub proof fn lemma_period6(a: Fq6Value)
    requires
        a.canonical(),
    ensures
        a.frobenius(6) == a,
{
    lemma_reduce2(a.c0);
    lemma_reduce2(a.c1);
    lemma_reduce2(a.c2);
    crate::model::frobenius::lemma_mul_one2(a.c1);
    crate::model::frobenius::lemma_mul_one2(a.c2);
}

/// Fq6 is a field: the norm down to Fq2 of an element other than zero is
/// not zero.
#[verifier::rlimit(50)]
pub proof fn lemma_field6(a: Fq6Value)
    requires
        a.canonical(),
        a != Fq6Value::zero(),
    ensures
        a.norm() != Fq2Value::zero(),
{
    if a.norm() == Fq2Value::zero() {
        let b = conjugates(a);
        lemma_conjugates(a);
        lemma_cofactors_not_zero(a);
        lemma_conjugates(b);
        // the cofactors of the cofactors are the element times its norm, zero
        lemma_mul_laws6(a, Fq6Value::zero(), a);
        crate::model::final_exp::lemma_units6();
        lemma_zero_product6(a);
        lemma_cofactors_not_zero(b);
    }
}

/// The product with zero is zero, in Fq6.
proof fn lemma_zero_product6(a: Fq6Value)
    ensures
        a.mul(Fq6Value::zero()) == Fq6Value::zero(),
{
    crate::model::sextic::lemma_times_unit6(a);
    vstd::arithmetic::div_mod::lemma_small_mod(0, q() as nat);
}

/// In Fq6 a product is zero only where a factor is zero.
pub proof fn lemma_no_zero_divisors6(a: Fq6Value, b: Fq6Value)
    requires
        a.canonical(),
        b.canonical(),
        a.mul(b) == Fq6Value::zero(),
    ensures
        a == Fq6Value::zero() || b == Fq6Value::zero(),
{
    if a != Fq6Value::zero() {
        // b = (a^-1 a) b = a^-1 (a b) = 0
        lemma_field6(a);
        crate::model::sextic::lemma_inverse6(a);
        let i = a.inv();
        lemma_mul_laws6(a, i, b);
        lemma_mul_laws6(i, a, b);
        lemma_mul_laws6(b, i, i);
        lemma_zero_product6(i);
    }
}

/// The element `v` of Fq6.
pub open spec fn element_v() -> Fq6Value {
    Fq6Value { c0: Fq2Value::zero(), c1: Fq2Value::one(), c2: Fq2Value::zero() }
}

/// The product with `v`, as a product, and the norm of `v`, which is `xi`.
proof fn lemma_element_v(a: Fq6Value)
    ensures
        a.mul_by_nonres() == a.mul(element_v()),
        element_v().norm() == Fq2Value::xi(),
        element_v().canonical(),
{
    let z = Fq2Value::zero();
    let o = Fq2Value::one();
    lemma_small();
    crate::model::quadratic::lemma_times_associates2(a.c0, z, z);
    crate::model::quadratic::lemma_times_associates2(a.c1, z, z);
    crate::model::quadratic::lemma_times_associates2(a.c2, z, z);
    crate::model::quadratic::lemma_times_associates2(o, o, o);
    crate::model::quadratic::lemma_times_associates2(z, o, o);
    assert(a.times(element_v()) == a.times_v());
    assert(z.times_xi() == z);
    assert(o.times_xi() == Fq2Value::xi());
    assert(element_v().cofactors() == (Fq6Value { c0: z, c1: z, c2: o }));
}

/// `v` is no square in Fq6.
pub proof fn lemma_v_not_square(t: Fq6Value)
    requires
        t.canonical(),
    ensures
        t.mul(t) != element_v(),
{
    if t.mul(t) == element_v() {
        lemma_element_v(t);
        crate::model::norm::lemma_norm_product6(t, t);
        lemma_reduce2(
            t.c1.times(t.cofactors().c2).plus(t.c2.times(t.cofactors().c1)).times_xi().plus(
                t.c0.times(t.cofactors().c0),
            ),
        );
        lemma_xi_not_square(t.norm());
    }
}

/// What reduces to zero as a difference is the same in the field.
proof fn lemma_difference_zero6(u: Fq6Value, w: Fq6Value)
    requires
        u.minus(w).reduce() == Fq6Value::zero(),
    ensures
        u.reduce() == w.reduce(),
{
    lemma_difference_zero(u.c0, w.c0);
    lemma_difference_zero(u.c1, w.c1);
    lemma_difference_zero(u.c2, w.c2);
}

/// Fq12 is a field: an element other than zero is invertible.
#[verifier::rlimit(50)]
pub proof fn lemma_field12(x: Fq12Value)
    requires
        x.canonical(),
        x != Fq12Value::zero(),
    ensures
        x.invertible(),
{
    let (a0, a1) = (x.c0, x.c1);
    let zero = Fq6Value::zero();
    let v = element_v();
    lemma_reduce6(a0.times(a0).minus(a1.times(a1).times_v()));
    if x.norm() == zero {
        lemma_difference_zero6(a0.times(a0), a1.times(a1).times_v());
        lemma_reduce6(a1.times(a1));
        crate::model::sextic::lemma_eqv_unary6(a1.mul(a1), a1.times(a1));
        lemma_reduce6(a1.times(a1).times_v());
        lemma_reduce6(a1.mul(a1).times_v());
        lemma_canonical_equal6(a1.mul(a1).mul_by_nonres(), a1.times(a1).times_v().reduce());
        lemma_element_v(a1.mul(a1));
        assert(a0.mul(a0) == a1.mul(a1).mul(v));
        lemma_mul_laws6(a1, a1, a1);
        lemma_mul_laws6(a0, a0, a0);
        if a1 == zero {
            lemma_zero_product6(zero);
            lemma_mul_laws6(zero, v, v);
            lemma_zero_product6(v);
            lemma_no_zero_divisors6(a0, a0);
        } else {
            lemma_field6(a1);
            crate::model::sextic::lemma_inverse6(a1);
            let i = a1.inv();
            lemma_reduce6(a1.cofactors().scaled(a1.norm().inv()));
            let t = a0.mul(i);
            lemma_mul_laws6(a0, i, i);
            // (a0 i)(a0 i) = (a0 a0)(i i) = ((a1 a1) v)(i i) = v ((a1 i)(a1 i)) = v
            lemma_four6(a0, i, a0, i);
            lemma_four6(a1, i, a1, i);
            lemma_mul_laws6(a1.mul(a1), v, i.mul(i));
            lemma_mul_laws6(v, i.mul(i), a1.mul(a1));
            lemma_mul_laws6(a1.mul(a1), i.mul(i), v);
            crate::model::final_exp::lemma_units6();
            lemma_mul_laws6(v, Fq6Value::one(), v);
            assert(t.mul(t) == v);
            lemma_v_not_square(t);
        }
    } else {
        lemma_field6(x.norm());
    }
}

} // verus!
