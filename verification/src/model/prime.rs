//! Moduli modulo which every number that they do not divide has an inverse,
//! and the criterion of Lucas by which a modulus is shown to be one: a
//! number `g` whose order is `n - 1` generates all the residues but zero.

use vstd::arithmetic::div_mod::{
    lemma_fundamental_div_mod, lemma_mod_bound, lemma_mod_multiples_basic,
    lemma_mul_mod_noop_general, lemma_mul_mod_noop_left, lemma_mul_mod_noop_right,
    lemma_small_mod,
};
use vstd::arithmetic::power::{
    lemma1_pow, lemma_pow0, lemma_pow1, lemma_pow_adds, lemma_pow_mod_noop, lemma_pow_multiplies,
    pow,
};
use vstd::prelude::*;
use vstd::set_lib::{lemma_int_range, lemma_map_size, lemma_subset_equality, set_int_range};

verus! {

/// `b` is an inverse of `a` modulo `p`.
pub open spec fn is_inverse(a: int, b: int, p: int) -> bool {
    (a * b) % p == 1
}

/// `a` has an inverse modulo `p`.
pub open spec fn has_inverse(a: int, p: int) -> bool {
    exists|b: int| is_inverse(a, b, p)
}

/// Every number from 1 to `p - 1` has an inverse modulo `p`: the residues
/// modulo `p` are a field, which is to say that `p` is prime.
pub open spec fn all_units(p: int) -> bool {
    p > 1 && forall|a: int| 0 < a < p ==> #[trigger] has_inverse(a, p)
}

/// One of the numbers of `ps` divides `m`.
pub open spec fn divides_one_of(m: int, ps: Seq<int>) -> bool {
    exists|i: int| 0 <= i < ps.len() && #[trigger] (m % ps[i]) == 0
}

/// Every divisor of `big` above 1 has one of the numbers of `ps` as a
/// divisor.
pub open spec fn factors_cover(big: int, ps: Seq<int>) -> bool {
    forall|m: int| m > 1 && #[trigger] (big % m) == 0 ==> divides_one_of(m, ps)
}

/// `g` to the power `(n - 1) / p` is not one modulo `n`, for each `p` of
/// `ps`, which all divide `n - 1`.
pub open spec fn order_is_full(n: int, g: int, ps: Seq<int>) -> bool {
    forall|i: int|
        0 <= i < ps.len() ==> (#[trigger] ps[i]) > 1 && (n - 1) % ps[i] == 0 && pow(
            g,
            ((n - 1) / ps[i]) as nat,
        ) % n != 1
}

/// What Fermat's little theorem says of `n`.
pub open spec fn fermat(n: int) -> bool {
    forall|a: int| a % n != 0 ==> #[trigger] pow(a, (n - 1) as nat) % n == 1
}

/// Where `m` divides `p * k` and `p` does not divide `m`, `m` divides `k`.
pub proof fn lemma_peel(p: int, m: int, k: int)
    requires
        all_units(p),
        m > 0,
        (p * k) % m == 0,
        m % p != 0,
    ensures
        k % m == 0,
{
    let r = m % p;
    lemma_mod_bound(m, p);
    assert(has_inverse(r, p));
    let b = choose|b: int| is_inverse(r, b, p);
    lemma_mul_mod_noop_left(m, b, p);
    let t = (m * b) / p;
    lemma_fundamental_div_mod(m * b, p);
    let s = (p * k) / m;
    lemma_fundamental_div_mod(p * k, m);
    assert(k == (k * b - s * t) * m) by (nonlinear_arith)
        requires
            m * b == p * t + 1,
            p * k == m * s,
    ;
    lemma_mod_multiples_basic(k * b - s * t, m);
}

/// One has no divisor above 1.
pub proof fn lemma_cover_one(ps: Seq<int>)
    ensures
        factors_cover(1, ps),
{
    assert forall|m: int| m > 1 && #[trigger] (1int % m) == 0 implies divides_one_of(m, ps) by {
        lemma_small_mod(1, m as nat);
    }
}

/// One more factor `p` of `ps`, modulo which all are units.
pub proof fn lemma_cover_step(big: int, p: int, ps: Seq<int>, i: int)
    requires
        0 <= i < ps.len(),
        ps[i] == p,
        all_units(p),
        factors_cover(big, ps),
    ensures
        factors_cover(p * big, ps),
{
    assert forall|m: int| m > 1 && #[trigger] ((p * big) % m) == 0 implies divides_one_of(
        m,
        ps,
    ) by {
        if m % p == 0 {
            assert(m % ps[i] == 0);
        } else {
            lemma_peel(p, m, big);
            assert(big % m == 0);
        }
    }
}

/// The power of a power, modulo `n`.
pub proof fn lemma_pow_compose(g: int, a: nat, b: nat, n: int)
    requires
        n > 0,
    ensures
        pow(g, a * b) % n == pow(pow(g, a) % n, b) % n,
{
    lemma_pow_multiplies(g, a, b);
    lemma_pow_mod_noop(pow(g, a), b, n);
}

/// A power of a number that is one modulo `n` is one modulo `n`.
pub proof fn lemma_pow_of_one(x: int, b: nat, n: int)
    requires
        n > 1,
        x % n == 1,
    ensures
        pow(x, b) % n == 1,
{
    lemma_pow_mod_noop(x, b, n);
    lemma1_pow(b);
    lemma_small_mod(1, n as nat);
}

/// The product of two powers, modulo `n`.
pub proof fn lemma_pow_split(g: int, a: nat, b: nat, n: int)
    requires
        n > 0,
    ensures
        pow(g, a + b) % n == ((pow(g, a) % n) * (pow(g, b) % n)) % n,
{
    lemma_pow_adds(g, a, b);
    lemma_mul_mod_noop_general(pow(g, a), pow(g, b), n);
}

/// No power of `g` with an exponent from 1 to `n - 2` is one modulo `n`.
#[verifier::rlimit(50)]
pub proof fn lemma_no_small_order(n: int, g: int, ps: Seq<int>, d: int)
    requires
        n > 1,
        pow(g, (n - 1) as nat) % n == 1,
        order_is_full(n, g, ps),
        factors_cover(n - 1, ps),
        0 < d < n - 1,
    ensures
        pow(g, d as nat) % n != 1,
    decreases d,
{
    if pow(g, d as nat) % n == 1 {
        let big = n - 1;
        let k = big / d;
        let r = big % d;
        lemma_fundamental_div_mod(big, d);
        lemma_mod_bound(big, d);
        assert(k >= 1 && d * k >= 0) by (nonlinear_arith)
            requires
                big == d * k + r,
                0 <= r < d,
                d < big,
        ;
        lemma_pow_split(g, (d * k) as nat, r as nat, n);
        lemma_pow_compose(g, d as nat, k as nat, n);
        lemma_small_mod(1, n as nat);
        lemma_pow_of_one(pow(g, d as nat) % n, k as nat, n);
        assert(pow(g, (d * k) as nat) % n == 1);
        lemma_mod_bound(pow(g, r as nat), n);
        lemma_small_mod((pow(g, r as nat) % n) as nat, n as nat);
        assert(1 * (pow(g, r as nat) % n) == pow(g, r as nat) % n);
        assert(pow(g, r as nat) % n == 1);
        if r > 0 {
            lemma_no_small_order(n, g, ps, r);
        } else {
            assert(k > 1) by (nonlinear_arith)
                requires
                    big == d * k,
                    0 < d < big,
            ;
            assert(big == k * d) by (nonlinear_arith)
                requires
                    big == d * k,
            ;
            lemma_mod_multiples_basic(d, k);
            assert(big % k == 0);
            assert(divides_one_of(k, ps));
            let i = choose|i: int| 0 <= i < ps.len() && #[trigger] (k % ps[i]) == 0;
            let p = ps[i];
            let t = k / p;
            lemma_fundamental_div_mod(k, p);
            assert(big == p * (d * t)) by (nonlinear_arith)
                requires
                    big == d * k,
                    k == p * t,
            ;
            vstd::arithmetic::div_mod::lemma_div_multiples_vanish(d * t, p);
            assert(t >= 0 && d * t >= 0) by (nonlinear_arith)
                requires
                    k == p * t,
                    k > 1,
                    p > 1,
                    d > 0,
            ;
            lemma_pow_compose(g, d as nat, t as nat, n);
            lemma_pow_of_one(pow(g, d as nat) % n, t as nat, n);
            assert(pow(g, (big / p) as nat) % n == 1);
        }
    }
}

/// No power of `g` with an exponent up to `n - 1` is zero modulo `n`.
pub proof fn lemma_power_not_zero(n: int, g: int, k: int)
    requires
        n > 1,
        pow(g, (n - 1) as nat) % n == 1,
        0 <= k <= n - 1,
    ensures
        pow(g, k as nat) % n != 0,
{
    if pow(g, k as nat) % n == 0 {
        lemma_pow_split(g, k as nat, (n - 1 - k) as nat, n);
        assert(0 * (pow(g, (n - 1 - k) as nat) % n) == 0);
        lemma_small_mod(0, n as nat);
    }
}

/// The powers of `g` with exponents below `n - 1` differ modulo `n`.
pub proof fn lemma_powers_differ(n: int, g: int, ps: Seq<int>, i: int, j: int)
    requires
        n > 1,
        pow(g, (n - 1) as nat) % n == 1,
        order_is_full(n, g, ps),
        factors_cover(n - 1, ps),
        0 <= i < j < n - 1,
    ensures
        pow(g, i as nat) % n != pow(g, j as nat) % n,
{
    let x = pow(g, i as nat) % n;
    let y = pow(g, j as nat) % n;
    if x == y {
        let w = pow(g, (j - i) as nat) % n;
        let z = pow(g, (n - 1 - i) as nat) % n;
        lemma_pow_split(g, i as nat, (j - i) as nat, n);
        lemma_pow_split(g, i as nat, (n - 1 - i) as nat, n);
        assert((x * w) % n == y);
        assert((x * z) % n == 1);
        // w = w (x z) = (x w) z = y z = x z = 1
        lemma_mul_mod_noop_right(w, x * z, n);
        assert(w * (x * z) == (x * w) * z) by (nonlinear_arith);
        lemma_mul_mod_noop_left(x * w, z, n);
        assert(w * 1 == w);
        lemma_mod_bound(pow(g, (j - i) as nat), n);
        lemma_small_mod(w as nat, n as nat);
        assert(w == 1);
        lemma_no_small_order(n, g, ps, j - i);
    }
}

/// Every number from 1 to `n - 1` is a power of `g` modulo `n`.
#[verifier::rlimit(50)]
pub proof fn lemma_generates(n: int, g: int, ps: Seq<int>, a: int) -> (k: int)
    requires
        n > 1,
        pow(g, (n - 1) as nat) % n == 1,
        order_is_full(n, g, ps),
        factors_cover(n - 1, ps),
        0 < a < n,
    ensures
        0 <= k < n - 1,
        pow(g, k as nat) % n == a,
{
    let f = |k: int| pow(g, k as nat) % n;
    let dom = set_int_range(0, n - 1);
    let img = dom.map(f);
    let all = set_int_range(1, n);
    lemma_int_range(0, n - 1);
    lemma_int_range(1, n);
    assert forall|x1: int, x2: int|
        dom.contains(x1) && dom.contains(x2) && #[trigger] f(x1) == #[trigger] f(x2) implies x1
        == x2 by {
        if x1 < x2 {
            lemma_powers_differ(n, g, ps, x1, x2);
        } else if x2 < x1 {
            lemma_powers_differ(n, g, ps, x2, x1);
        }
    }
    assert(vstd::relations::injective_on(f, dom));
    lemma_map_size(dom, img, f);
    assert forall|y: int| img.contains(y) implies all.contains(y) by {
        let x = choose|x: int| dom.contains(x) && f(x) == y;
        lemma_power_not_zero(n, g, x);
        lemma_mod_bound(pow(g, x as nat), n);
    }
    assert(img.subset_of(all));
    lemma_subset_equality(img, all);
    assert(all.contains(a));
    assert(img.contains(a));
    let k = choose|k: int| dom.contains(k) && f(k) == a;
    k
}

/// The criterion of Lucas: where the order of `g` modulo `n` is `n - 1`,
/// every number that `n` does not divide has an inverse modulo `n`, and its
/// power with exponent `n - 1` is one.
pub proof fn lemma_lucas(n: int, g: int, ps: Seq<int>)
    requires
        n > 1,
        pow(g, (n - 1) as nat) % n == 1,
        order_is_full(n, g, ps),
        factors_cover(n - 1, ps),
    ensures
        all_units(n),
        fermat(n),
{
    let big = (n - 1) as nat;
    assert forall|a: int| 0 < a < n implies #[trigger] has_inverse(a, n) by {
        let k = lemma_generates(n, g, ps, a);
        let b = pow(g, (n - 1 - k) as nat) % n;
        lemma_pow_split(g, k as nat, (n - 1 - k) as nat, n);
        assert(is_inverse(a, b, n));
    }
    assert forall|a: int| a % n != 0 implies #[trigger] pow(a, (n - 1) as nat) % n == 1 by {
        let r = a % n;
        lemma_mod_bound(a, n);
        let k = lemma_generates(n, g, ps, r);
        lemma_pow_mod_noop(a, big, n);
        // r^(n-1) = g^(k (n-1)) = (g^(n-1))^k = 1
        lemma_pow_compose(g, k as nat, big, n);
        lemma_pow_compose(g, big, k as nat, n);
        assert(k as nat * big == big * k as nat) by (nonlinear_arith);
        lemma_small_mod(1, n as nat);
        lemma_pow_of_one(pow(g, big) % n, k as nat, n);
    }
}

/// Modulo 2 the one residue other than zero is its own inverse.
pub proof fn lemma_two()
    ensures
        all_units(2),
{
    assert forall|a: int| 0 < a < 2 implies #[trigger] has_inverse(a, 2) by {
        assert(is_inverse(1, 1, 2));
    }
}

/// One step of a power by squaring and multiplying: from `g^e` to
/// `g^(2e)` or `g^(2e + 1)`, modulo `n`.
pub proof fn lemma_step(g: int, n: int, e: nat, x: int, bit: bool) -> (r: (nat, int))
    requires
        n > 1,
        pow(g, e) % n == x,
    ensures
        r.0 == 2 * e + (if bit {
            1nat
        } else {
            0nat
        }),
        r.1 == (if bit {
            (x * x * g) % n
        } else {
            (x * x) % n
        }),
        pow(g, r.0) % n == r.1,
{
    lemma_pow_adds(g, e, e);
    assert(e + e == 2 * e);
    vstd::arithmetic::div_mod::lemma_mul_mod_noop(pow(g, e), pow(g, e), n);
    if bit {
        lemma_pow_adds(g, (2 * e) as nat, 1);
        lemma_pow1(g);
        lemma_mul_mod_noop_left(pow(g, e) * pow(g, e), g, n);
        lemma_mul_mod_noop_left(x * x, g, n);
    }
    if bit {
        ((2 * e + 1) as nat, (x * x * g) % n)
    } else {
        ((2 * e) as nat, (x * x) % n)
    }
}

/// The start of a power by squaring and multiplying.
pub proof fn lemma_start(g: int, n: int)
    requires
        n > 1,
    ensures
        pow(g, 0) % n == 1,
{
    lemma_pow0(g);
    lemma_small_mod(1, n as nat);
}

} // verus!
