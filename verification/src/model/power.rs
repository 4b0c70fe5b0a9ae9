//! Powers in Fq12, and that the power with exponent `q` goes through sums
//! and products: the binomial theorem over the integers, and the binomial
//! coefficients of the prime `q`, which `q` divides.

use crate::model::base::{lemma_fq_no_zero_divisors, q};
use crate::model::dodecic::{
    lemma_canonical_equal12, lemma_eqv_plus12, lemma_eqv_times12, lemma_reduce12,
    lemma_times_associates12, lemma_times_distributes12, lemma_times_unit12, Fq12Value,
};
use crate::model::quadratic::Fq2Value;
use crate::model::sextic::Fq6Value;
use vstd::prelude::*;

verus! {

/// The binomial coefficient, by the rule of Pascal.
pub open spec fn binomial(n: nat, k: nat) -> nat
    decreases n,
{
    if k == 0 {
        1
    } else if n == 0 {
        0
    } else {
        binomial((n - 1) as nat, (k - 1) as nat) + binomial((n - 1) as nat, k)
    }
}

/// The product without reduction. Its definition is kept out of sight of
/// the solver here, where only the laws of a commutative ring are used.
#[verifier::opaque]
pub open spec fn product(a: Fq12Value, b: Fq12Value) -> Fq12Value {
    a.times(b)
}

/// The laws of the product.
pub proof fn lemma_product_laws(a: Fq12Value, b: Fq12Value, c: Fq12Value)
    ensures
        product(product(a, b), c) == product(a, product(b, c)),
        product(a, b) == product(b, a),
        product(a.plus(b), c) == product(a, c).plus(product(b, c)),
        product(c, a.plus(b)) == product(c, a).plus(product(c, b)),
        product(a, Fq12Value::one()) == a,
        product(Fq12Value::one(), a) == a,
        product(a, Fq12Value::zero()) == Fq12Value::zero(),
{
    reveal(product);
    lemma_times_associates12(a, b, c);
    lemma_times_distributes12(a, b, c);
    lemma_times_unit12(a);
}

impl Fq12Value {
    /// The integer `c` as an element.
    pub open spec fn integer(c: int) -> Self {
        Fq12Value {
            c0: Fq6Value {
                c0: Fq2Value { c0: c, c1: 0 },
                c1: Fq2Value::zero(),
                c2: Fq2Value::zero(),
            },
            c1: Fq6Value::zero(),
        }
    }

    /// The power without reduction.
    pub open spec fn raised(self, n: nat) -> Self
        decreases n,
    {
        if n == 0 {
            Fq12Value::one()
        } else {
            product(self, self.raised((n - 1) as nat))
        }
    }

    /// The power in the field.
    pub open spec fn power(self, n: nat) -> Self
        decreases n,
    {
        if n == 0 {
            Fq12Value::one()
        } else {
            self.mul(self.power((n - 1) as nat))
        }
    }
}

/// `x^k y^m`, without reduction.
pub open spec fn monomial(x: Fq12Value, y: Fq12Value, k: nat, m: nat) -> Fq12Value {
    product(x.raised(k), y.raised(m))
}

/// The term of `x^k` in the expansion of `(x + y)^n`.
pub open spec fn term(x: Fq12Value, y: Fq12Value, n: nat, k: nat) -> Fq12Value {
    product(monomial(x, y, k, (n - k) as nat), Fq12Value::integer(binomial(n, k) as int))
}

/// The terms up to that of `x^j` in the expansion of `(x + y)^n`.
pub open spec fn expansion(x: Fq12Value, y: Fq12Value, n: nat, j: nat) -> Fq12Value
    decreases j,
{
    if j == 0 {
        term(x, y, n, 0)
    } else {
        expansion(x, y, n, (j - 1) as nat).plus(term(x, y, n, j))
    }
}

/// The coefficient of the highest power is one, and there is none beyond.
pub proof fn lemma_binomial_top(n: nat, k: nat)
    ensures
        k > n ==> binomial(n, k) == 0,
        binomial(n, n) == 1,
    decreases n,
{
    if n > 0 {
        lemma_binomial_top((n - 1) as nat, k);
        lemma_binomial_top((n - 1) as nat, n);
        if k > 0 {
            lemma_binomial_top((n - 1) as nat, (k - 1) as nat);
        }
        lemma_binomial_top((n - 1) as nat, (n - 1) as nat);
    }
}

/// `k C(n, k) = n C(n - 1, k - 1)`.
pub proof fn lemma_binomial_absorbs(n: nat, k: nat)
    requires
        n >= 1,
        k >= 1,
    ensures
        k * binomial(n, k) == n * binomial((n - 1) as nat, (k - 1) as nat),
    decreases n,
{
    let a = binomial((n - 1) as nat, (k - 1) as nat) as int;
    let b = binomial((n - 1) as nat, k) as int;
    assert(binomial(n, k) == a + b);
    if n == 1 {
        lemma_binomial_top(0, k);
        lemma_binomial_top(0, (k - 1) as nat);
        if k == 1 {
            assert(a == 1 && b == 0);
        } else {
            assert(a == 0 && b == 0);
        }
        assert(k * (a + b) == n * a) by (nonlinear_arith)
            requires
                n == 1,
                (k == 1 && a == 1 && b == 0) || (a == 0 && b == 0),
        ;
    } else {
        // k b = (n - 1) a, and (k - 1) a = (n - 1) c where a = c + d, d = C(n-2, k-1)
        lemma_binomial_absorbs((n - 1) as nat, k);
        assert(k * b == (n - 1) * binomial((n - 2) as nat, (k - 1) as nat));
        let d = binomial((n - 2) as nat, (k - 1) as nat) as int;
        if k == 1 {
            assert(a == 1);
            assert(d == 1);
            assert(k * (a + b) == n * a) by (nonlinear_arith)
                requires
                    k == 1,
                    a == 1,
                    d == 1,
                    k * b == (n - 1) * d,
            ;
        } else {
            lemma_binomial_absorbs((n - 1) as nat, (k - 1) as nat);
            let c = binomial((n - 2) as nat, (k - 2) as nat) as int;
            assert(a == c + d);
            assert((k - 1) * a == (n - 1) * c);
            assert(k * (a + b) == n * a) by (nonlinear_arith)
                requires
                    a == c + d,
                    (k - 1) * a == (n - 1) * c,
                    k * b == (n - 1) * d,
            ;
        }
    }
}

/// The prime `q` divides its binomial coefficients but the first and the
/// last.
pub proof fn lemma_binomial_of_prime(k: nat)
    requires
        0 < k < q(),
    ensures
        binomial(q() as nat, k) as int % q() == 0,
{
    let n = q() as nat;
    let c = binomial(n, k) as int;
    let d = binomial((n - 1) as nat, (k - 1) as nat) as int;
    lemma_binomial_absorbs(n, k);
    assert(k * c == q() * d);
    vstd::arithmetic::mul::lemma_mul_is_commutative(q(), d);
    vstd::arithmetic::div_mod::lemma_mod_multiples_basic(d, q());
    lemma_fq_no_zero_divisors(k as int, c);
    vstd::arithmetic::div_mod::lemma_small_mod(k, q() as nat);
}

/// One more factor `x` or `y` in front of a monomial.
proof fn lemma_monomial_step(x: Fq12Value, y: Fq12Value, k: nat, m: nat)
    ensures
        product(x, monomial(x, y, k, m)) == monomial(x, y, k + 1, m),
        product(y, monomial(x, y, k, m)) == monomial(x, y, k, m + 1),
{
    let xk = x.raised(k);
    let ym = y.raised(m);
    lemma_product_laws(x, xk, ym);
    lemma_product_laws(y, xk, ym);
    lemma_product_laws(xk, y, ym);
    assert(x.raised(k + 1) == product(x, xk));
    assert(y.raised(m + 1) == product(y, ym));
}

/// `(x + y)` times a multiple of a monomial.
proof fn lemma_term_step(x: Fq12Value, y: Fq12Value, k: nat, m: nat, c: int)
    ensures
        product(x.plus(y), product(monomial(x, y, k, m), Fq12Value::integer(c))) == product(
            monomial(x, y, k + 1, m),
            Fq12Value::integer(c),
        ).plus(product(monomial(x, y, k, m + 1), Fq12Value::integer(c))),
{
    let p = monomial(x, y, k, m);
    let i = Fq12Value::integer(c);
    lemma_product_laws(x, y, product(p, i));
    lemma_product_laws(x, p, i);
    lemma_product_laws(y, p, i);
    lemma_monomial_step(x, y, k, m);
}

/// Multiples of one element add up.
proof fn lemma_multiples_add(p: Fq12Value, a: int, b: int)
    ensures
        product(p, Fq12Value::integer(a)).plus(product(p, Fq12Value::integer(b))) == product(
            p,
            Fq12Value::integer(a + b),
        ),
        product(p, Fq12Value::integer(1)) == p,
{
    lemma_product_laws(Fq12Value::integer(a), Fq12Value::integer(b), p);
    assert(Fq12Value::integer(a).plus(Fq12Value::integer(b)) == Fq12Value::integer(a + b));
    assert(Fq12Value::integer(1) == Fq12Value::one());
    lemma_product_laws(p, p, p);
}

/// `(x + y)` times the terms up to `x^j` of `(x + y)^n`: the terms up to
/// `x^j` of `(x + y)^(n + 1)`, and what goes over into the term of
/// `x^(j + 1)`.
#[verifier::rlimit(50)]
proof fn lemma_expansion_step(x: Fq12Value, y: Fq12Value, n: nat, j: nat)
    requires
        j <= n,
    ensures
        product(x.plus(y), expansion(x, y, n, j)) == expansion(x, y, n + 1, j).plus(
            product(
                monomial(x, y, j + 1, (n - j) as nat),
                Fq12Value::integer(binomial(n, j) as int),
            ),
        ),
    decreases j,
{
    let s = x.plus(y);
    if j == 0 {
        lemma_term_step(x, y, 0, n, 1);
        assert(expansion(x, y, n, 0) == term(x, y, n, 0));
        assert(expansion(x, y, n + 1, 0) == term(x, y, n + 1, 0));
        lemma_regroup2(
            product(monomial(x, y, 1, n), Fq12Value::integer(1)),
            product(monomial(x, y, 0, n + 1), Fq12Value::integer(1)),
        );
    } else {
        let before = expansion(x, y, n, (j - 1) as nat);
        lemma_expansion_step(x, y, n, (j - 1) as nat);
        lemma_product_laws(before, term(x, y, n, j), s);
        lemma_term_step(x, y, j, (n - j) as nat, binomial(n, j) as int);
        lemma_multiples_add(
            monomial(x, y, j, (n + 1 - j) as nat),
            binomial(n, (j - 1) as nat) as int,
            binomial(n, j) as int,
        );
        assert(binomial(n + 1, j) == binomial(n, (j - 1) as nat) + binomial(n, j));
        let carry_in = product(
            monomial(x, y, j, (n + 1 - j) as nat),
            Fq12Value::integer(binomial(n, (j - 1) as nat) as int),
        );
        let low = product(
            monomial(x, y, j, (n + 1 - j) as nat),
            Fq12Value::integer(binomial(n, j) as int),
        );
        let carry_out = product(
            monomial(x, y, j + 1, (n - j) as nat),
            Fq12Value::integer(binomial(n, j) as int),
        );
        let next = expansion(x, y, n + 1, (j - 1) as nat);
        assert(product(s, before) == next.plus(carry_in));
        assert(product(s, term(x, y, n, j)) == carry_out.plus(low));
        assert(carry_in.plus(low) == term(x, y, n + 1, j));
        assert(expansion(x, y, n, j) == before.plus(term(x, y, n, j)));
        assert(expansion(x, y, n + 1, j) == next.plus(term(x, y, n + 1, j)));
        lemma_regroup(next, carry_in, carry_out, low);
    }
}

/// `a + b = b + a`.
proof fn lemma_regroup2(a: Fq12Value, b: Fq12Value)
    ensures
        a.plus(b) == b.plus(a),
{
}

/// `(a + b) + (c + d) = (a + (b + d)) + c`.
proof fn lemma_regroup(a: Fq12Value, b: Fq12Value, c: Fq12Value, d: Fq12Value)
    ensures
        a.plus(b).plus(c.plus(d)) == a.plus(b.plus(d)).plus(c),
{
}

/// The binomial theorem: `(x + y)^n` is the sum of the terms
/// `C(n, k) x^k y^(n - k)`.
pub proof fn lemma_binomial_theorem(x: Fq12Value, y: Fq12Value, n: nat)
    ensures
        x.plus(y).raised(n) == expansion(x, y, n, n),
    decreases n,
{
    if n == 0 {
        lemma_product_laws(Fq12Value::one(), Fq12Value::one(), Fq12Value::one());
        assert(Fq12Value::integer(1) == Fq12Value::one());
        lemma_binomial_top(0, 0);
    } else {
        let m = (n - 1) as nat;
        lemma_binomial_theorem(x, y, m);
        lemma_expansion_step(x, y, m, m);
        lemma_binomial_top(m, m);
        lemma_binomial_top(n, n);
        assert(x.plus(y).raised(n) == product(x.plus(y), x.plus(y).raised(m)));
        assert(expansion(x, y, n, n) == expansion(x, y, n, m).plus(term(x, y, n, n)));
    }
}

/// A multiple by a multiple of `q` is zero in the field.
proof fn lemma_multiple_vanishes(p: Fq12Value, c: int)
    requires
        c % q() == 0,
    ensures
        product(p, Fq12Value::integer(c)).eqv(Fq12Value::zero()),
{
    reveal(product);
    vstd::arithmetic::div_mod::lemma_small_mod(0, q() as nat);
    lemma_eqv_times12(p, Fq12Value::integer(c), p, Fq12Value::zero());
    lemma_times_unit12(p);
}

/// The terms of `(x + y)^q` below that of `x^q` add up to `y^q` in the
/// field.
proof fn lemma_expansion_of_prime(x: Fq12Value, y: Fq12Value, j: nat)
    requires
        j < q(),
    ensures
        expansion(x, y, q() as nat, j).eqv(y.raised(q() as nat)),
    decreases j,
{
    let n = q() as nat;
    let yq = y.raised(n);
    if j == 0 {
        lemma_product_laws(yq, yq, yq);
        lemma_multiples_add(monomial(x, y, 0, n), 0, 0);
        assert(x.raised(0) == Fq12Value::one());
        assert(expansion(x, y, n, 0) == yq);
    } else {
        lemma_expansion_of_prime(x, y, (j - 1) as nat);
        lemma_binomial_of_prime(j);
        lemma_multiple_vanishes(monomial(x, y, j, (n - j) as nat), binomial(n, j) as int);
        lemma_eqv_plus12(
            expansion(x, y, n, (j - 1) as nat),
            term(x, y, n, j),
            yq,
            Fq12Value::zero(),
        );
        assert(yq.plus(Fq12Value::zero()) == yq);
    }
}

/// In the field the power of a sum with exponent `q` is the sum of the
/// powers, here without reduction of the powers.
pub proof fn lemma_raised_sum(x: Fq12Value, y: Fq12Value)
    ensures
        x.plus(y).raised(q() as nat).eqv(x.raised(q() as nat).plus(y.raised(q() as nat))),
{
    let n = q() as nat;
    lemma_binomial_theorem(x, y, n);
    lemma_expansion_of_prime(x, y, (n - 1) as nat);
    lemma_binomial_top(n, n);
    let xq = x.raised(n);
    lemma_product_laws(xq, xq, xq);
    lemma_multiples_add(monomial(x, y, n, 0), 0, 0);
    assert(y.raised(0) == Fq12Value::one());
    assert(term(x, y, n, n) == xq);
    lemma_eqv_plus12(expansion(x, y, n, (n - 1) as nat), xq, y.raised(n), xq);
    lemma_regroup2(y.raised(n), xq);
}

/// Powers of elements that are the same in the field are the same in the
/// field.
pub proof fn lemma_raised_eqv(a: Fq12Value, b: Fq12Value, n: nat)
    requires
        a.eqv(b),
    ensures
        a.raised(n).eqv(b.raised(n)),
    decreases n,
{
    if n > 0 {
        reveal(product);
        lemma_raised_eqv(a, b, (n - 1) as nat);
        lemma_eqv_times12(a, a.raised((n - 1) as nat), b, b.raised((n - 1) as nat));
    }
}

/// The power in the field is the reduced power.
pub proof fn lemma_power_raised(x: Fq12Value, n: nat)
    ensures
        x.power(n).eqv(x.raised(n)),
        x.power(n).canonical(),
        x.power(n) == x.raised(n).reduce(),
    decreases n,
{
    lemma_reduce12(x.raised(n));
    lemma_reduce12(Fq12Value::one());
    vstd::arithmetic::div_mod::lemma_small_mod(0, q() as nat);
    vstd::arithmetic::div_mod::lemma_small_mod(1, q() as nat);
    if n > 0 {
        reveal(product);
        lemma_power_raised(x, (n - 1) as nat);
        lemma_eqv_times12(x, x.power((n - 1) as nat), x, x.raised((n - 1) as nat));
        lemma_canonical_equal12(x.power(n), x.raised(n).reduce());
    }
}

/// The power of a product is the product of the powers.
pub proof fn lemma_raised_product(x: Fq12Value, y: Fq12Value, n: nat)
    ensures
        product(x, y).raised(n) == product(x.raised(n), y.raised(n)),
    decreases n,
{
    if n == 0 {
        lemma_product_laws(Fq12Value::one(), Fq12Value::one(), Fq12Value::one());
    } else {
        let xn = x.raised((n - 1) as nat);
        let yn = y.raised((n - 1) as nat);
        lemma_raised_product(x, y, (n - 1) as nat);
        // (x y)(X Y) = x (y (X Y)) = x ((y X) Y) = x ((X y) Y) = x (X (y Y)) = (x X)(y Y)
        lemma_product_laws(x, y, product(xn, yn));
        lemma_product_laws(y, xn, yn);
        lemma_product_laws(xn, y, yn);
        lemma_product_laws(x, xn, product(y, yn));
    }
}

/// The power with a sum as exponent is the product of the powers.
pub proof fn lemma_raised_adds(x: Fq12Value, a: nat, b: nat)
    ensures
        x.raised(a + b) == product(x.raised(a), x.raised(b)),
    decreases a,
{
    if a == 0 {
        lemma_product_laws(x.raised(b), x, x);
    } else {
        lemma_raised_adds(x, (a - 1) as nat, b);
        lemma_product_laws(x, x.raised((a - 1) as nat), x.raised(b));
        assert(x.raised(a + b) == product(x, x.raised((a - 1 + b) as nat)));
    }
}

/// The power with a product as exponent is the power of the power.
pub proof fn lemma_raised_multiplies(x: Fq12Value, a: nat, b: nat)
    ensures
        x.raised(a * b) == x.raised(a).raised(b),
    decreases b,
{
    if b == 0 {
        assert(a * 0 == 0);
    } else {
        lemma_raised_multiplies(x, a, (b - 1) as nat);
        assert(a * b == a + a * (b - 1)) by (nonlinear_arith);
        assert(a * (b - 1) >= 0) by (nonlinear_arith)
            requires
                b >= 1,
        ;
        lemma_raised_adds(x, a, (a * (b - 1)) as nat);
    }
}

/// In the field the power with exponent `q` goes through sums.
pub proof fn lemma_power_sum(x: Fq12Value, y: Fq12Value)
    ensures
        x.add(y).power(q() as nat) == x.power(q() as nat).add(y.power(q() as nat)),
{
    let n = q() as nat;
    lemma_power_raised(x.add(y), n);
    lemma_reduce12(x.plus(y));
    lemma_raised_eqv(x.add(y), x.plus(y), n);
    lemma_raised_sum(x, y);
    lemma_power_raised(x, n);
    lemma_power_raised(y, n);
    lemma_eqv_plus12(x.power(n), y.power(n), x.raised(n), y.raised(n));
    lemma_reduce12(x.power(n).plus(y.power(n)));
    lemma_canonical_equal12(x.add(y).power(n), x.power(n).add(y.power(n)));
}

/// In the field the power goes through products.
#[verifier::rlimit(50)]
pub proof fn lemma_power_product(x: Fq12Value, y: Fq12Value, n: nat)
    ensures
        x.mul(y).power(n) == x.power(n).mul(y.power(n)),
{
    reveal(product);
    lemma_power_raised(x.mul(y), n);
    lemma_reduce12(x.times(y));
    lemma_raised_eqv(x.mul(y), x.times(y), n);
    lemma_raised_product(x, y, n);
    lemma_power_raised(x, n);
    lemma_power_raised(y, n);
    lemma_eqv_times12(x.power(n), y.power(n), x.raised(n), y.raised(n));
    lemma_reduce12(x.power(n).times(y.power(n)));
    lemma_canonical_equal12(x.mul(y).power(n), x.power(n).mul(y.power(n)));
}

/// In the field the power with a product as exponent is the power of the
/// power.
pub proof fn lemma_power_multiplies(x: Fq12Value, a: nat, b: nat)
    ensures
        x.power(a * b) == x.power(a).power(b),
{
    lemma_power_raised(x, a * b);
    lemma_raised_multiplies(x, a, b);
    lemma_power_raised(x, a);
    lemma_raised_eqv(x.power(a), x.raised(a), b);
    lemma_power_raised(x.power(a), b);
    lemma_canonical_equal12(x.power(a * b), x.power(a).power(b));
}

} // verus!
