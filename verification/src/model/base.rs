//! The prime field Fq as integers modulo `q`.

use vstd::arithmetic::div_mod::{
    lemma_add_mod_noop, lemma_mod_bound, lemma_mod_twice, lemma_mul_mod_noop, lemma_small_mod,
};
use vstd::arithmetic::power::pow;
use vstd::prelude::*;

verus! {

/// The base prime `q` of BN254.
pub open spec fn q() -> int {
    0x30644e72e131a029b85045b68181585d97816a916871ca8d3c208c16d87cfd47int
}

/// `x` is the canonical representative of its class: `0 <= x < q`.
pub open spec fn canonical(x: int) -> bool {
    0 <= x < q()
}

/// `a` and `b` denote the same element of Fq.
pub open spec fn congruent(a: int, b: int) -> bool {
    a % q() == b % q()
}

/// Addition in Fq.
pub open spec fn fq_add(a: int, b: int) -> int {
    (a + b) % q()
}

/// Subtraction in Fq.
pub open spec fn fq_sub(a: int, b: int) -> int {
    (a - b) % q()
}

/// Negation in Fq.
pub open spec fn fq_neg(a: int) -> int {
    (-a) % q()
}

/// Multiplication in Fq.
pub open spec fn fq_mul(a: int, b: int) -> int {
    (a * b) % q()
}

/// Fermat's inverse in Fq: `a^(q-2)`.
pub open spec fn fq_inv(a: int) -> int {
    pow(a, (q() - 2) as nat) % q()
}

/// A reduced number is congruent to the number it was reduced from.
pub proof fn lemma_reduce_congruent(x: int)
    ensures
        congruent(x % q(), x),
        canonical(x % q()),
{
    lemma_mod_twice(x, q());
    lemma_mod_bound(x, q());
}

/// Canonical representatives of one class are equal.
pub proof fn lemma_canonical_equal(a: int, b: int)
    requires
        canonical(a),
        canonical(b),
        congruent(a, b),
    ensures
        a == b,
{
    lemma_small_mod(a as nat, q() as nat);
    lemma_small_mod(b as nat, q() as nat);
}

/// Sums of congruent numbers are congruent.
pub proof fn lemma_congruent_add(a: int, b: int, c: int, d: int)
    requires
        congruent(a, c),
        congruent(b, d),
    ensures
        congruent(a + b, c + d),
{
    lemma_add_mod_noop(a, b, q());
    lemma_add_mod_noop(c, d, q());
}

/// Products of congruent numbers are congruent.
pub proof fn lemma_congruent_mul(a: int, b: int, c: int, d: int)
    requires
        congruent(a, c),
        congruent(b, d),
    ensures
        congruent(a * b, c * d),
{
    lemma_mul_mod_noop(a, b, q());
    lemma_mul_mod_noop(c, d, q());
}

/// Linear combinations of congruent numbers, with the same coefficients, are
/// congruent.
pub proof fn lemma_congruent_linear(k: int, a: int, l: int, b: int, c: int, d: int)
    requires
        congruent(a, c),
        congruent(b, d),
    ensures
        congruent(k * a + l * b, k * c + l * d),
        congruent((k * a + l * b) % q(), k * c + l * d),
{
    lemma_congruent_mul(k, a, k, c);
    lemma_congruent_mul(l, b, l, d);
    lemma_congruent_add(k * a, l * b, k * c, l * d);
    lemma_mod_twice(k * a + l * b, q());
}

/// Fermat's inverse is an inverse: `a * a^(q-2) = 1` in Fq for every `a`
/// other than zero. This rests on `q` being prime.
pub proof fn lemma_fq_inverse(a: int)
    requires
        a % q() != 0,
    ensures
        fq_mul(a, fq_inv(a)) == 1,
        fq_mul(fq_inv(a), a) == 1,
{
    crate::model::certificate::lemma_prime_q();
    let e = (q() - 2) as nat;
    assert(pow(a, (q() - 1) as nat) % q() == 1);
    vstd::arithmetic::power::lemma_pow_adds(a, 1, e);
    vstd::arithmetic::power::lemma_pow1(a);
    assert(pow(a, (q() - 1) as nat) == a * pow(a, e));
    vstd::arithmetic::div_mod::lemma_mul_mod_noop_right(a, pow(a, e), q());
    vstd::arithmetic::mul::lemma_mul_is_commutative(a, fq_inv(a));
}

/// In Fq a product is zero only where a factor is zero.
pub proof fn lemma_fq_no_zero_divisors(a: int, b: int)
    requires
        (a * b) % q() == 0,
    ensures
        a % q() == 0 || b % q() == 0,
{
    if a % q() != 0 {
        // b = (a^-1 a) b = a^-1 (a b) = 0
        lemma_fq_inverse(a);
        let i = fq_inv(a);
        vstd::arithmetic::div_mod::lemma_mul_mod_noop_left(i * a, b, q());
        assert(1 * b == b);
        vstd::arithmetic::mul::lemma_mul_is_associative(i, a, b);
        vstd::arithmetic::div_mod::lemma_mul_mod_noop_right(i, a * b, q());
        assert(i * 0 == 0);
        lemma_small_mod(0, q() as nat);
    }
}

/// In Fq minus one is no square: a sum of two squares is zero only where
/// both numbers are zero. This rests on `q` being a prime of the form
/// `4k + 3`.
#[verifier::rlimit(50)]
pub proof fn lemma_sum_of_squares(a: int, b: int)
    requires
        (a * a + b * b) % q() == 0,
    ensures
        a % q() == 0,
        b % q() == 0,
{
    let m = ((q() - 1) / 2) as nat;
    assert(2 * m == q() - 1);
    assert(m % 2 == 1);
    if a % q() == 0 {
        // b^2 = a^2 + b^2 - a a = 0
        vstd::arithmetic::div_mod::lemma_mul_mod_noop_general(a, a, q());
        assert(0int * 0int == 0);
        lemma_small_mod(0, q() as nat);
        vstd::arithmetic::div_mod::lemma_add_mod_noop(a * a, b * b, q());
        lemma_mod_twice(b * b, q());
        assert((b * b) % q() == 0);
        lemma_fq_no_zero_divisors(b, b);
    } else if b % q() == 0 {
        vstd::arithmetic::div_mod::lemma_mul_mod_noop_general(b, b, q());
        assert(0int * 0int == 0);
        lemma_small_mod(0, q() as nat);
        vstd::arithmetic::div_mod::lemma_add_mod_noop(a * a, b * b, q());
        lemma_mod_twice(a * a, q());
        assert((a * a) % q() == 0);
        lemma_fq_no_zero_divisors(a, a);
    } else {
        // a^2 = -b^2, so 1 = a^(q-1) = (-b^2)^m = -b^(q-1) = -1
        lemma_half_power(a);
        lemma_half_power(b);
        let s = a * a + b * b;
        assert(a * a == s + (-(b * b)));
        vstd::arithmetic::div_mod::lemma_add_mod_noop(s, -(b * b), q());
        lemma_small_mod(0, q() as nat);
        lemma_mod_twice(-(b * b), q());
        assert((a * a) % q() == (-(b * b)) % q());
        vstd::arithmetic::power::lemma_pow_mod_noop(a * a, m, q());
        vstd::arithmetic::power::lemma_pow_mod_noop(-(b * b), m, q());
        assert(pow(-(b * b), m) % q() == 1);
        lemma_odd_power_of_opposite(b * b, m);
        vstd::arithmetic::div_mod::lemma_sub_mod_noop_right(0, pow(b * b, m), q());
        assert((-1int) % q() == q() - 1) by {
            vstd::arithmetic::div_mod::lemma_mod_add_multiples_vanish(-1, q());
            lemma_small_mod((q() - 1) as nat, q() as nat);
        }
        assert(false);
    }
}

/// The power of a square with exponent `(q - 1) / 2` is the power with
/// exponent `q - 1`, which is one for a number other than zero.
proof fn lemma_half_power(a: int)
    requires
        a % q() != 0,
    ensures
        pow(a * a, ((q() - 1) / 2) as nat) % q() == 1,
{
    crate::model::certificate::lemma_prime_q();
    let m = ((q() - 1) / 2) as nat;
    assert(2 * m == q() - 1);
    vstd::arithmetic::power::lemma_pow_adds(a, 1, 1);
    vstd::arithmetic::power::lemma_pow1(a);
    vstd::arithmetic::power::lemma_pow_multiplies(a, 2, m);
    assert(pow(a, (q() - 1) as nat) % q() == 1);
}

/// An odd power of the opposite is the opposite of the power.
pub proof fn lemma_odd_power_of_opposite(x: int, m: nat)
    requires
        m % 2 == 1,
    ensures
        pow(-x, m) == -pow(x, m),
{
    let k = (m / 2) as nat;
    assert(m == 2 * k + 1);
    assert(-x == (-1) * x);
    vstd::arithmetic::power::lemma_pow_distributes(-1, x, m);
    vstd::arithmetic::power::lemma_pow_adds(-1, (2 * k) as nat, 1);
    vstd::arithmetic::power::lemma_pow1(-1);
    vstd::arithmetic::power::lemma_pow_adds(-1, 1, 1);
    assert((-1int) * (-1int) == 1);
    vstd::arithmetic::power::lemma_pow_multiplies(-1, 2, k);
    vstd::arithmetic::power::lemma1_pow(k);
    assert(pow(-1, m) == -1);
    assert((-1) * pow(x, m) == -pow(x, m));
}

/// The power with exponent `q` of a number is the number, in Fq.
pub proof fn lemma_power_q(a: int)
    ensures
        congruent(pow(a, q() as nat), a),
{
    let e = (q() - 1) as nat;
    vstd::arithmetic::power::lemma_pow_adds(a, 1, e);
    vstd::arithmetic::power::lemma_pow1(a);
    assert(pow(a, q() as nat) == a * pow(a, e));
    vstd::arithmetic::div_mod::lemma_mul_mod_noop_general(a, pow(a, e), q());
    if a % q() == 0 {
        assert(0 * (pow(a, e) % q()) == 0);
        lemma_small_mod(0, q() as nat);
    } else {
        crate::model::certificate::lemma_prime_q();
        assert(pow(a, e) % q() == 1);
        assert((a % q()) * 1 == a % q());
        lemma_mod_twice(a, q());
    }
}

} // verus!
