//! Modular arithmetic on 256-bit numbers held as four little-endian 64-bit
//! limbs, over a modulus handed in by the caller. Multiplication is in
//! Montgomery form with radix 2^256.

use crate::math::{adb, adc, base, borrow_bit, is_mask, mac, sba, sbb};
use rand_core::RngCore;
use vstd::arithmetic::power::pow;
use vstd::arithmetic::power2::pow2;
use vstd::prelude::*;

verus! {

/// 2^128.
pub open spec fn base2() -> int {
    0x1_0000_0000_0000_0000_0000_0000_0000_0000int
}

/// 2^192.
pub open spec fn base3() -> int {
    0x1_0000_0000_0000_0000_0000_0000_0000_0000_0000_0000_0000_0000int
}

/// 2^256, the Montgomery radix.
pub open spec fn radix() -> int {
    0x1_0000_0000_0000_0000_0000_0000_0000_0000_0000_0000_0000_0000_0000_0000_0000_0000int
}

/// The number that four words denote, least significant first.
pub open spec fn value4(l0: u64, l1: u64, l2: u64, l3: u64) -> int {
    l0 + l1 * base() + l2 * base2() + l3 * base3()
}

/// The number that a limb array denotes.
pub open spec fn limbs_value(a: [u64; 4]) -> int {
    value4(a[0], a[1], a[2], a[3])
}

/// The number that an eight-limb array denotes.
pub open spec fn wide_value(t: [u64; 8]) -> int {
    value4(t[0], t[1], t[2], t[3]) + radix() * value4(t[4], t[5], t[6], t[7])
}

/// `x` undoes the Montgomery radix modulo `p`.
pub open spec fn is_radix_inverse(x: int, p: int) -> bool {
    0 <= x < p && (radix() * x) % p == 1
}

/// The inverse of 2^256 modulo `p`, where there is one.
pub open spec fn radix_inverse(p: int) -> int {
    choose|x: int| is_radix_inverse(x, p)
}

/// A modulus that these functions can reduce by: at most 2^255, so that a sum
/// of two residues fits in four limbs.
pub open spec fn valid_modulus(p: [u64; 4]) -> bool {
    1 < limbs_value(p) <= 0x8000_0000_0000_0000_0000_0000_0000_0000_0000_0000_0000_0000_0000_0000_0000_0000int
}

/// A modulus together with its Montgomery constant `inv = -p^-1 mod 2^64`.
pub open spec fn valid_montgomery(p: [u64; 4], inv: u64) -> bool {
    &&& valid_modulus(p)
    &&& (p[0] * inv + 1) % base() == 0
    &&& exists|x: int| is_radix_inverse(x, limbs_value(p))
}

/// What Montgomery reduction makes of `t`: `t / 2^256` modulo `p`.
pub open spec fn mont_reduce(t: int, p: int) -> int {
    (t * radix_inverse(p)) % p
}

/// The Montgomery form of `x`: `x * 2^256` modulo `p`.
pub open spec fn to_mont(x: int, p: int) -> int {
    (x * radix()) % p
}

/// The number whose Montgomery form is `x`.
pub open spec fn from_mont(x: int, p: int) -> int {
    mont_reduce(x, p)
}

proof fn lemma_mask_and(x: u64, m: u64)
    by (bit_vector)
    ensures
        m == 0 ==> x & m == 0,
        m == 0xffff_ffff_ffff_ffffu64 ==> x & m == x,
{
}

proof fn lemma_shift_in(x: u64, y: u64)
    by (bit_vector)
    ensures
        (x << 1) == (x % 0x8000_0000_0000_0000) * 2,
        (y >> 63) == y / 0x8000_0000_0000_0000,
        ((x << 1) | (y >> 63)) == (x % 0x8000_0000_0000_0000) * 2 + y / 0x8000_0000_0000_0000,
{
}

proof fn lemma_or_zero(a: u64, b: u64, c: u64, d: u64)
    by (bit_vector)
    ensures
        ((a | b | c | d) == 0) <==> (a == 0 && b == 0 && c == 0 && d == 0),
{
}

/// `l - p`, with a borrow word that is all ones exactly when `l < p`.
fn sub_with_borrow(l: [u64; 4], p: [u64; 4]) -> (r: ([u64; 4], u64))
    ensures
        limbs_value(r.0) - borrow_bit(r.1) * radix() == limbs_value(l) - limbs_value(p),
        is_mask(r.1),
{
    let (l0, brw) = sba(l[0], p[0]);
    let (l1, brw) = sbb(l[1], p[1], brw);
    let (l2, brw) = sbb(l[2], p[2], brw);
    let (l3, brw) = sbb(l[3], p[3], brw);
    ([l0, l1, l2, l3], brw)
}

/// `a + b` modulo 2^256.
fn add_wrapping(a: [u64; 4], b: [u64; 4]) -> (r: [u64; 4])
    ensures
        limbs_value(r) == (limbs_value(a) + limbs_value(b)) % radix(),
{
    let (l0, c0) = adb(a[0], b[0]);
    let (l1, c1) = adc(a[1], b[1], c0);
    let (l2, c2) = adc(a[2], b[2], c1);
    let l3 = a[3].wrapping_add(b[3]).wrapping_add(c2);
    let r = [l0, l1, l2, l3];
    proof {
        let w = a[3] + b[3] + c2;
        let k: int = if w >= base() { 1 } else { 0 };
        assert(l3 == w - k * base());
        assert(limbs_value(r) == limbs_value(a) + limbs_value(b) - k * radix());
        lemma_mod_unique(limbs_value(a) + limbs_value(b), radix(), k, limbs_value(r));
    }
    r
}

/// `l + p` where the borrow word is all ones, `l` where it is zero, in both
/// cases modulo 2^256.
fn add_masked(l: [u64; 4], p: [u64; 4], brw: u64) -> (r: [u64; 4])
    requires
        is_mask(brw),
    ensures
        limbs_value(r) == (limbs_value(l) + (if brw == 0 {
            0
        } else {
            limbs_value(p)
        })) % radix(),
{
    proof {
        lemma_mask_and(p[0], brw);
        lemma_mask_and(p[1], brw);
        lemma_mask_and(p[2], brw);
        lemma_mask_and(p[3], brw);
    }
    let m = [p[0] & brw, p[1] & brw, p[2] & brw, p[3] & brw];
    assert(limbs_value(m) == (if brw == 0 {
        0
    } else {
        limbs_value(p)
    }));
    add_wrapping(l, m)
}

/// `(a + b) mod p`.
pub fn add(a: [u64; 4], b: [u64; 4], p: [u64; 4]) -> (r: [u64; 4])
    requires
        valid_modulus(p),
        limbs_value(a) < limbs_value(p),
        limbs_value(b) < limbs_value(p),
    ensures
        limbs_value(r) == (limbs_value(a) + limbs_value(b)) % limbs_value(p),
{
    let s = add_wrapping(a, b);
    proof {
        vstd::arithmetic::div_mod::lemma_small_mod(
            (limbs_value(a) + limbs_value(b)) as nat,
            radix() as nat,
        );
    }
    reduce_once(s, p)
}

/// `s mod p` for `s < 2p`: subtract `p`, and add it back if that borrowed.
fn reduce_once(s: [u64; 4], p: [u64; 4]) -> (r: [u64; 4])
    requires
        valid_modulus(p),
        limbs_value(s) < 2 * limbs_value(p),
    ensures
        limbs_value(r) == limbs_value(s) % limbs_value(p),
{
    let (d, brw) = sub_with_borrow(s, p);
    let r = add_masked(d, p, brw);
    proof {
        let (sv, pv) = (limbs_value(s), limbs_value(p));
        if brw == 0 {
            vstd::arithmetic::div_mod::lemma_small_mod((sv - pv) as nat, radix() as nat);
        } else {
            lemma_mod_unique(sv - pv + radix() + pv, radix(), 1, sv);
        }
        lemma_reduce_once(sv, pv, limbs_value(r));
    }
    r
}

/// `(a - b) mod p`.
pub fn sub(a: [u64; 4], b: [u64; 4], p: [u64; 4]) -> (r: [u64; 4])
    requires
        valid_modulus(p),
        limbs_value(a) < limbs_value(p),
        limbs_value(b) < limbs_value(p),
    ensures
        limbs_value(r) == (limbs_value(a) - limbs_value(b)) % limbs_value(p),
{
    let (d, brw) = sub_with_borrow(a, b);
    let r = add_masked(d, p, brw);
    proof {
        let (av, bv, pv) = (limbs_value(a), limbs_value(b), limbs_value(p));
        if brw == 0 {
            vstd::arithmetic::div_mod::lemma_small_mod((av - bv) as nat, radix() as nat);
            vstd::arithmetic::div_mod::lemma_small_mod((av - bv) as nat, pv as nat);
        } else {
            lemma_mod_unique(av - bv + radix() + pv, radix(), 1, av - bv + pv);
            lemma_mod_unique(av - bv, pv, -1, av - bv + pv);
        }
    }
    r
}

/// `2a mod p`.
pub fn double(a: [u64; 4], p: [u64; 4]) -> (r: [u64; 4])
    requires
        valid_modulus(p),
        limbs_value(a) < limbs_value(p),
    ensures
        limbs_value(r) == (2 * limbs_value(a)) % limbs_value(p),
{
    proof {
        lemma_shift_in(a[0], 0);
        lemma_shift_in(a[1], a[0]);
        lemma_shift_in(a[2], a[1]);
        lemma_shift_in(a[3], a[2]);
    }
    let l0 = a[0] << 1;
    let l1 = a[1] << 1 | a[0] >> 63;
    let l2 = a[2] << 1 | a[1] >> 63;
    let l3 = a[3] << 1 | a[2] >> 63;
    let s = [l0, l1, l2, l3];
    proof {
        lemma_shifted_value(a, s);
    }
    reduce_once(s, p)
}

/// `-a mod p`: zero for zero, `p - a` otherwise.
pub fn neg(a: [u64; 4], p: [u64; 4]) -> (r: [u64; 4])
    requires
        valid_modulus(p),
        limbs_value(a) < limbs_value(p),
    ensures
        limbs_value(r) == (-limbs_value(a)) % limbs_value(p),
        limbs_value(a) == 0 ==> r == a,
        limbs_value(a) != 0 ==> limbs_value(r) == limbs_value(p) - limbs_value(a),
{
    proof {
        lemma_or_zero(a[0], a[1], a[2], a[3]);
    }
    if (a[0] | a[1] | a[2] | a[3]) == 0 {
        proof {
            vstd::arithmetic::div_mod::lemma_small_mod(0, limbs_value(p) as nat);
        }
        a
    } else {
        let (l0, b) = sba(p[0], a[0]);
        let (l1, b) = sbb(p[1], a[1], b);
        let (l2, b) = sbb(p[2], a[2], b);
        proof {
            crate::math::lemma_top_bit(b);
        }
        let l3 = (p[3]).wrapping_sub(a[3]).wrapping_sub(b >> 63);
        let r = [l0, l1, l2, l3];
        proof {
            assert(limbs_value(r) == limbs_value(p) - limbs_value(a));
            vstd::arithmetic::div_mod::lemma_mod_add_multiples_vanish(
                -limbs_value(a),
                limbs_value(p),
            );
            vstd::arithmetic::div_mod::lemma_small_mod(
                (limbs_value(p) - limbs_value(a)) as nat,
                limbs_value(p) as nat,
            );
        }
        r
    }
}

/// The product of two four-limb numbers, on eight limbs.
#[verifier::rlimit(50)]
pub fn mul_wide(a: [u64; 4], b: [u64; 4]) -> (t: [u64; 8])
    ensures
        wide_value(t) == limbs_value(a) * limbs_value(b),
{
    let (l0, c) = mac(0, a[0], b[0], 0);
    let (l1, c) = mac(0, a[0], b[1], c);
    let (l2, c) = mac(0, a[0], b[2], c);
    let (l3, l4) = mac(0, a[0], b[3], c);
    assert(value4(l0, l1, l2, l3) + radix() * l4 == a[0] * b[0] + a[0] * b[1] * base() + a[0]
        * b[2] * base2() + a[0] * b[3] * base3());

    let ghost row0 = value4(l0, l1, l2, l3) + radix() * l4;
    let (l1, c) = mac(l1, a[1], b[0], 0);
    let (l2, c) = mac(l2, a[1], b[1], c);
    let (l3, c) = mac(l3, a[1], b[2], c);
    let (l4, l5) = mac(l4, a[1], b[3], c);
    assert(value4(l0, l1, l2, l3) + radix() * value4(l4, l5, 0, 0) == row0 + (a[1] * b[0] + a[1]
        * b[1] * base() + a[1] * b[2] * base2() + a[1] * b[3] * base3()) * base());

    let ghost row1 = value4(l0, l1, l2, l3) + radix() * value4(l4, l5, 0, 0);
    let (l2, c) = mac(l2, a[2], b[0], 0);
    let (l3, c) = mac(l3, a[2], b[1], c);
    let (l4, c) = mac(l4, a[2], b[2], c);
    let (l5, l6) = mac(l5, a[2], b[3], c);
    assert(value4(l0, l1, l2, l3) + radix() * value4(l4, l5, l6, 0) == row1 + (a[2] * b[0] + a[2]
        * b[1] * base() + a[2] * b[2] * base2() + a[2] * b[3] * base3()) * base2());

    let ghost row2 = value4(l0, l1, l2, l3) + radix() * value4(l4, l5, l6, 0);
    let (l3, c) = mac(l3, a[3], b[0], 0);
    let (l4, c) = mac(l4, a[3], b[1], c);
    let (l5, c) = mac(l5, a[3], b[2], c);
    let (l6, l7) = mac(l6, a[3], b[3], c);
    assert(value4(l0, l1, l2, l3) + radix() * value4(l4, l5, l6, l7) == row2 + (a[3] * b[0] + a[3]
        * b[1] * base() + a[3] * b[2] * base2() + a[3] * b[3] * base3()) * base3());

    let t = [l0, l1, l2, l3, l4, l5, l6, l7];
    proof {
        lemma_row(a[0] as int, b);
        lemma_row(a[1] as int, b);
        lemma_row(a[2] as int, b);
        lemma_row(a[3] as int, b);
        lemma_rows(
            a[0] as int,
            a[1] as int,
            a[2] as int,
            a[3] as int,
            limbs_value(b),
            base(),
            base2(),
            base3(),
        );
    }
    t
}

/// The square of a four-limb number, on eight limbs: the products of
/// distinct limbs once, shifted left by one bit, then the squares of the limbs.
#[verifier::rlimit(50)]
pub fn square_wide(a: [u64; 4]) -> (t: [u64; 8])
    ensures
        wide_value(t) == limbs_value(a) * limbs_value(a),
{
    let (l1, c) = mac(0, a[0], a[1], 0);
    let (l2, c) = mac(0, a[0], a[2], c);
    let (l3, l4) = mac(0, a[0], a[3], c);
    let (l3, c) = mac(l3, a[1], a[2], 0);
    let (l4, l5) = mac(l4, a[1], a[3], c);
    let (l5, l6) = mac(l5, a[2], a[3], 0);
    let ghost cross = a[0] * a[1] * base() + a[0] * a[2] * base2() + (a[0] * a[3] + a[1] * a[2])
        * base3() + radix() * (a[1] * a[3] + a[2] * a[3] * base());
    assert(value4(0, l1, l2, l3) + radix() * value4(l4, l5, l6, 0) == cross);

    proof {
        lemma_shift_in(l1, 0);
        lemma_shift_in(l2, l1);
        lemma_shift_in(l3, l2);
        lemma_shift_in(l4, l3);
        lemma_shift_in(l5, l4);
        lemma_shift_in(l6, l5);
        lemma_shift_in(0, l6);
    }
    let s7 = l6 >> 63;
    let s6 = (l6 << 1) | (l5 >> 63);
    let s5 = (l5 << 1) | (l4 >> 63);
    let s4 = (l4 << 1) | (l3 >> 63);
    let s3 = (l3 << 1) | (l2 >> 63);
    let s2 = (l2 << 1) | (l1 >> 63);
    let s1 = l1 << 1;
    proof {
        lemma_shifted_wide(l1, l2, l3, l4, l5, l6, s1, s2, s3, s4, s5, s6, s7);
        lemma_square_expand(a, cross);
        lemma_square_bound(limbs_value(a));
    }

    let (l0, c) = mac(0, a[0], a[0], 0);
    let (l1, c) = adb(s1, c);
    let (l2, c) = mac(s2, a[1], a[1], c);
    let (l3, c) = adb(s3, c);
    let (l4, c) = mac(s4, a[2], a[2], c);
    let (l5, c) = adb(s5, c);
    let (l6, c) = mac(s6, a[3], a[3], c);
    assert(value4(l0, l1, l2, l3) + radix() * (value4(l4, l5, l6, 0) + (s7 + c) * base3()) == 2
        * cross + a[0] * a[0] + a[1] * a[1] * base2() + radix() * (a[2] * a[2] + a[3] * a[3]
        * base2()));
    let l7 = s7.wrapping_add(c);
    [l0, l1, l2, l3, l4, l5, l6, l7]
}

/// Shifting seven limbs left by one bit doubles the number they denote.
proof fn lemma_shifted_wide(
    l1: u64,
    l2: u64,
    l3: u64,
    l4: u64,
    l5: u64,
    l6: u64,
    s1: u64,
    s2: u64,
    s3: u64,
    s4: u64,
    s5: u64,
    s6: u64,
    s7: u64,
)
    requires
        s1 == (l1 % 0x8000_0000_0000_0000) * 2,
        s2 == (l2 % 0x8000_0000_0000_0000) * 2 + l1 / 0x8000_0000_0000_0000,
        s3 == (l3 % 0x8000_0000_0000_0000) * 2 + l2 / 0x8000_0000_0000_0000,
        s4 == (l4 % 0x8000_0000_0000_0000) * 2 + l3 / 0x8000_0000_0000_0000,
        s5 == (l5 % 0x8000_0000_0000_0000) * 2 + l4 / 0x8000_0000_0000_0000,
        s6 == (l6 % 0x8000_0000_0000_0000) * 2 + l5 / 0x8000_0000_0000_0000,
        s7 == l6 / 0x8000_0000_0000_0000,
    ensures
        value4(0, s1, s2, s3) + radix() * value4(s4, s5, s6, s7) == 2 * (value4(0, l1, l2, l3)
            + radix() * value4(l4, l5, l6, 0)),
{
    let h: int = 0x8000_0000_0000_0000;
    assert(l1 == (l1 as int / h) * h + l1 as int % h);
    assert(l2 == (l2 as int / h) * h + l2 as int % h);
    assert(l3 == (l3 as int / h) * h + l3 as int % h);
    assert(l4 == (l4 as int / h) * h + l4 as int % h);
    assert(l5 == (l5 as int / h) * h + l5 as int % h);
    assert(l6 == (l6 as int / h) * h + l6 as int % h);
}

/// The square of a four-limb number, written out by limbs.
proof fn lemma_square_expand(a: [u64; 4], cross: int)
    requires
        cross == a[0] * a[1] * base() + a[0] * a[2] * base2() + (a[0] * a[3] + a[1] * a[2])
            * base3() + radix() * (a[1] * a[3] + a[2] * a[3] * base()),
    ensures
        limbs_value(a) * limbs_value(a) == 2 * cross + a[0] * a[0] + a[1] * a[1] * base2()
            + radix() * (a[2] * a[2] + a[3] * a[3] * base2()),
{
    let (a0, a1, a2, a3) = (a[0] as int, a[1] as int, a[2] as int, a[3] as int);
    lemma_row(a0, a);
    lemma_row(a1, a);
    lemma_row(a2, a);
    lemma_row(a3, a);
    lemma_rows(a0, a1, a2, a3, limbs_value(a), base(), base2(), base3());
    vstd::arithmetic::mul::lemma_mul_is_commutative(a0, a1);
    vstd::arithmetic::mul::lemma_mul_is_commutative(a0, a2);
    vstd::arithmetic::mul::lemma_mul_is_commutative(a0, a3);
    vstd::arithmetic::mul::lemma_mul_is_commutative(a1, a2);
    vstd::arithmetic::mul::lemma_mul_is_commutative(a1, a3);
    vstd::arithmetic::mul::lemma_mul_is_commutative(a2, a3);
    let r0 = a0 * a0 + a0 * a1 * base() + a0 * a2 * base2() + a0 * a3 * base3();
    let r1 = a1 * a0 + a1 * a1 * base() + a1 * a2 * base2() + a1 * a3 * base3();
    let r2 = a2 * a0 + a2 * a1 * base() + a2 * a2 * base2() + a2 * a3 * base3();
    let r3 = a3 * a0 + a3 * a1 * base() + a3 * a2 * base2() + a3 * a3 * base3();
    assert(limbs_value(a) * limbs_value(a) == r0 + r1 * base() + r2 * base2() + r3 * base3());
}

/// A square of a number below 2^256 is below 2^512.
proof fn lemma_square_bound(x: int)
    requires
        0 <= x < radix(),
    ensures
        x * x < radix() * radix(),
{
    let m = radix();
    assert(x * x < m * m) by (nonlinear_arith)
        requires
            0 <= x < m,
    ;
}

/// `a * b / 2^256 mod p`: the Montgomery product.
pub fn mul(a: [u64; 4], b: [u64; 4], p: [u64; 4], inv: u64) -> (r: [u64; 4])
    requires
        valid_montgomery(p, inv),
        limbs_value(a) * limbs_value(b) < radix() * limbs_value(p),
    ensures
        limbs_value(r) == mont_reduce(limbs_value(a) * limbs_value(b), limbs_value(p)),
        limbs_value(r) < limbs_value(p),
{
    mont(mul_wide(a, b), p, inv)
}

/// `a * a / 2^256 mod p`: the Montgomery square.
pub fn square(a: [u64; 4], p: [u64; 4], inv: u64) -> (r: [u64; 4])
    requires
        valid_montgomery(p, inv),
        limbs_value(a) * limbs_value(a) < radix() * limbs_value(p),
    ensures
        limbs_value(r) == mont_reduce(limbs_value(a) * limbs_value(a), limbs_value(p)),
        limbs_value(r) < limbs_value(p),
{
    mont(square_wide(a), p, inv)
}

/// Montgomery reduction of an eight-limb number below `2^256 * p`: in each of
/// four rounds the multiple of `p` that clears the lowest limb is added, and
/// the upper four limbs are then reduced once.
#[verifier::rlimit(50)]
pub fn mont(a: [u64; 8], p: [u64; 4], inv: u64) -> (r: [u64; 4])
    requires
        valid_montgomery(p, inv),
        wide_value(a) < radix() * limbs_value(p),
    ensures
        limbs_value(r) == mont_reduce(wide_value(a), limbs_value(p)),
        limbs_value(r) < limbs_value(p),
{
    let ghost pv = limbs_value(p);
    let (l1, l2, l3, d0, Ghost(k0)) = mont_round(a[0], a[1], a[2], a[3], p, inv);
    let (l4, e0) = adb(a[4], d0);
    let (m2, m3, m4, d1, Ghost(k1)) = mont_round(l1, l2, l3, l4, p, inv);
    let (l5, e1) = adc(a[5], e0, d1);
    let (n3, n4, n5, d2, Ghost(k2)) = mont_round(m2, m3, m4, l5, p, inv);
    let (l6, e2) = adc(a[6], e1, d2);
    let (o4, o5, o6, d3, Ghost(k3)) = mont_round(n3, n4, n5, l6, p, inv);
    let ghost top = a[7] + e2 + d3;
    let ghost k = k0 + k1 * base() + k2 * base2() + k3 * base3();
    let ghost v = value4(o4, o5, o6, 0) + top * base3();
    proof {
        lemma_rounds(
            wide_value(a),
            value4(a[0], a[1], a[2], a[3]),
            value4(l1, l2, l3, d0),
            value4(l1, l2, l3, l4),
            value4(m2, m3, m4, d1),
            value4(m2, m3, m4, l5),
            value4(n3, n4, n5, d2),
            value4(n3, n4, n5, l6),
            value4(o4, o5, o6, d3),
            v,
            k0 * pv,
            k1 * pv,
            k2 * pv,
            k3 * pv,
            a[4] as int,
            a[5] as int,
            a[6] as int,
            a[7] as int,
            d0 as int,
            d1 as int,
            d2 as int,
            d3 as int,
            l4 as int,
            l5 as int,
            l6 as int,
            e0 as int,
            e1 as int,
            e2 as int,
        );
        lemma_rows(k0, k1, k2, k3, pv, base(), base2(), base3());
        assert(v * radix() == wide_value(a) + k * pv);
        lemma_quotient_bound(v, wide_value(a), k, pv);
    }
    let l7 = a[7].wrapping_add(e2).wrapping_add(d3);
    let s = [o4, o5, o6, l7];
    assert(limbs_value(s) == v);
    let r = reduce_once(s, p);
    proof {
        lemma_reduced_value(v, wide_value(a), k, pv);
        vstd::arithmetic::div_mod::lemma_mod_bound(v, pv);
    }
    r
}

/// One round of Montgomery reduction on four limbs: adds the multiple `k * p`
/// that clears the lowest limb and drops that limb.
fn mont_round(t0: u64, t1: u64, t2: u64, t3: u64, p: [u64; 4], inv: u64) -> (r: (
    u64,
    u64,
    u64,
    u64,
    Ghost<int>,
))
    requires
        (p[0] * inv + 1) % base() == 0,
    ensures
        0 <= r.4@ < base(),
        value4(t0, t1, t2, t3) + r.4@ * limbs_value(p) == value4(r.0, r.1, r.2, r.3) * base(),
{
    let k = t0.wrapping_mul(inv);
    proof {
        lemma_clears_low_limb(t0, p[0], inv);
        lemma_row(k as int, p);
    }
    let (z, d) = mac(t0, k, p[0], 0);
    assert(z == 0) by {
        lemma_mod_unique(t0 + k * p[0], base(), d as int, z as int);
    }
    let (l1, d) = mac(t1, k, p[1], d);
    let (l2, d) = mac(t2, k, p[2], d);
    let (l3, d) = mac(t3, k, p[3], d);
    (l1, l2, l3, d, Ghost(k as int))
}

/// The four rounds and the carries between them, added up.
proof fn lemma_rounds(
    t: int,
    t_lo: int,
    r0: int,
    s1: int,
    r1: int,
    s2: int,
    r2: int,
    s3: int,
    r3: int,
    v: int,
    kp0: int,
    kp1: int,
    kp2: int,
    kp3: int,
    a4: int,
    a5: int,
    a6: int,
    a7: int,
    d0: int,
    d1: int,
    d2: int,
    d3: int,
    l4: int,
    l5: int,
    l6: int,
    e0: int,
    e1: int,
    e2: int,
)
    requires
        t == t_lo + radix() * (a4 + a5 * base() + a6 * base2() + a7 * base3()),
        t_lo + kp0 == r0 * base(),
        s1 == r0 - d0 * base3() + l4 * base3(),
        l4 + e0 * base() == a4 + d0,
        s1 + kp1 == r1 * base(),
        s2 == r1 - d1 * base3() + l5 * base3(),
        l5 + e1 * base() == a5 + e0 + d1,
        s2 + kp2 == r2 * base(),
        s3 == r2 - d2 * base3() + l6 * base3(),
        l6 + e2 * base() == a6 + e1 + d2,
        s3 + kp3 == r3 * base(),
        v == r3 - d3 * base3() + (a7 + e2 + d3) * base3(),
    ensures
        v * radix() == t + kp0 + kp1 * base() + kp2 * base2() + kp3 * base3(),
{
}

/// With `inv = -low^-1 mod 2^64`, adding `(x * inv mod 2^64) * low` to `x`
/// leaves a multiple of 2^64.
proof fn lemma_clears_low_limb(x: u64, low: u64, inv: u64)
    requires
        (low * inv + 1) % base() == 0,
    ensures
        (x + ((x as nat * inv as nat) % (0x1_0000_0000_0000_0000 as nat)) * low) % base() == 0,
{
    let m = base();
    let (xi, pi, ii) = (x as int, low as int, inv as int);
    let k = (xi * ii) % m;
    // k * low = x * inv * low = x * (inv * low) modulo 2^64
    vstd::arithmetic::div_mod::lemma_mul_mod_noop_left(xi * ii, pi, m);
    assert((k * pi) % m == ((xi * ii) * pi) % m);
    vstd::arithmetic::mul::lemma_mul_is_associative(xi, ii, pi);
    vstd::arithmetic::mul::lemma_mul_is_commutative(ii, pi);
    vstd::arithmetic::mul::lemma_mul_is_distributive_add(xi, pi * ii, 1);
    assert(xi + (xi * ii) * pi == xi * (pi * ii + 1));
    vstd::arithmetic::div_mod::lemma_mul_mod_noop_right(xi, pi * ii + 1, m);
    assert((xi * ((pi * ii + 1) % m)) == 0) by (nonlinear_arith)
        requires
            (pi * ii + 1) % m == 0,
    ;
    assert((xi + (xi * ii) * pi) % m == 0);
    vstd::arithmetic::div_mod::lemma_add_mod_noop_right(xi, (xi * ii) * pi, m);
    vstd::arithmetic::div_mod::lemma_add_mod_noop_right(xi, k * pi, m);
}

/// What is left after the four rounds is below `2p`.
proof fn lemma_quotient_bound(v: int, t: int, k: int, p: int)
    requires
        v * radix() == t + k * p,
        0 <= t < radix() * p,
        0 <= k < radix(),
        0 < p,
    ensures
        0 <= v < 2 * p,
{
    let m = radix();
    assert(k * p < m * p) by (nonlinear_arith)
        requires
            0 <= k < m,
            0 < p,
    ;
    assert(k * p >= 0) by (nonlinear_arith)
        requires
            0 <= k,
            0 < p,
    ;
    assert(v < 2 * p) by (nonlinear_arith)
        requires
            v * m < 2 * (m * p),
            m > 0,
    ;
    assert(v >= 0) by (nonlinear_arith)
        requires
            v * m >= 0,
            m > 0,
    ;
}

/// A number `v` with `v * 2^256 = t + k * p` is `t / 2^256` modulo `p`.
proof fn lemma_reduced_value(v: int, t: int, k: int, p: int)
    requires
        v * radix() == t + k * p,
        1 < p,
        exists|x: int| is_radix_inverse(x, p),
    ensures
        v % p == mont_reduce(t, p),
{
    let x = radix_inverse(p);
    let m = radix();
    assert(is_radix_inverse(x, p));
    // v = v * (m * x) = (v * m) * x = (t + k * p) * x = t * x modulo p
    vstd::arithmetic::div_mod::lemma_mul_mod_noop_right(v, m * x, p);
    assert((v * (m * x)) % p == (v * 1) % p);
    vstd::arithmetic::mul::lemma_mul_is_associative(v, m, x);
    vstd::arithmetic::mul::lemma_mul_is_distributive_add_other_way(x, t, k * p);
    assert((v * m) * x == t * x + (k * p) * x);
    lemma_swap_factors(k, p, x);
    vstd::arithmetic::div_mod::lemma_mod_multiples_vanish(k * x, t * x, p);
}

/// `p - 2`, the exponent of Fermat's inversion.
pub fn little_fermat(p: [u64; 4]) -> (r: [u64; 4])
    requires
        limbs_value(p) >= 2,
    ensures
        limbs_value(r) == limbs_value(p) - 2,
{
    let (l0, b) = sba(p[0], 2);
    let (l1, b) = sbb(p[1], 0, b);
    let (l2, b) = sbb(p[2], 0, b);
    let (l3, b) = sbb(p[3], 0, b);
    [l0, l1, l2, l3]
}

/// `a` to the power `exp` in Montgomery form, by squaring and multiplying
/// from the highest bit of `exp` down, starting at `one`; nothing for zero.
/// With `exp = p - 2` this is Fermat's inverse.
#[verifier::rlimit(50)]
pub fn invert(a: [u64; 4], exp: [u64; 4], one: [u64; 4], p: [u64; 4], inv: u64) -> (r: Option<
    [u64; 4],
>)
    requires
        valid_montgomery(p, inv),
        limbs_value(a) < limbs_value(p),
        limbs_value(one) == to_mont(1, limbs_value(p)),
    ensures
        r is None <==> limbs_value(a) == 0,
        r matches Some(x) ==> limbs_value(x) < limbs_value(p) && limbs_value(x) == to_mont(
            pow(from_mont(limbs_value(a), limbs_value(p)), limbs_value(exp) as nat),
            limbs_value(p),
        ),
{
    if a[0] == 0 && a[1] == 0 && a[2] == 0 && a[3] == 0 {
        return None;
    }
    let ghost pv = limbs_value(p);
    let ghost av = from_mont(limbs_value(a), pv);
    let mut acc = one;
    let ghost mut e: int = 0;
    proof {
        vstd::arithmetic::power::lemma_pow0(av);
        vstd::arithmetic::div_mod::lemma_mod_bound(radix(), pv);
    }
    let mut k: usize = 4;
    while k > 0
        invariant
            k <= 4,
            valid_montgomery(p, inv),
            pv == limbs_value(p),
            av == from_mont(limbs_value(a), pv),
            limbs_value(a) < pv,
            limbs_value(acc) < pv,
            0 <= e,
            limbs_value(acc) == to_mont(pow(av, e as nat), pv),
            e == (if k == 4 {
                0
            } else if k == 3 {
                exp[3] as int
            } else if k == 2 {
                exp[3] * base() + exp[2]
            } else if k == 1 {
                exp[3] * base2() + exp[2] * base() + exp[1]
            } else {
                limbs_value(exp)
            }),
        decreases k,
    {
        k = k - 1;
        let limb = exp[k];
        let ghost high: int = e;
        let mut j: u32 = 64;
        proof {
            vstd::arithmetic::power2::lemma2_to64();
            vstd::arithmetic::div_mod::lemma_basic_div(limb as int, base());
            assert(high * pow2(0) == high) by (nonlinear_arith)
                requires
                    pow2(0) == 1,
            ;
        }
        while j > 0
            invariant
                j <= 64,
                valid_montgomery(p, inv),
                pv == limbs_value(p),
                av == from_mont(limbs_value(a), pv),
                limbs_value(a) < pv,
                limbs_value(acc) < pv,
                0 <= e,
            limbs_value(acc) == to_mont(pow(av, e as nat), pv),
                e == high * pow2((64 - j) as nat) + limb as nat / pow2(j as nat),
            decreases j,
        {
            j = j - 1;
            proof {
                lemma_square_step(limbs_value(acc), av, e as nat, pv);
                lemma_product_bound(limbs_value(acc), limbs_value(acc), pv);
            }
            acc = square(acc, p, inv);
            let bit = (limb >> j) & 1 == 1;
            proof {
                lemma_next_bit(limb, j, high);
            }
            if bit {
                proof {
                    lemma_multiply_step(limbs_value(acc), limbs_value(a), av, (2 * e) as nat, pv);
                    lemma_product_bound(limbs_value(acc), limbs_value(a), pv);
                }
                acc = self::mul(acc, a, p, inv);
                proof {
                    e = 2 * e + 1;
                }
            } else {
                proof {
                    e = 2 * e;
                }
            }
        }
        proof {
            vstd::arithmetic::power2::lemma2_to64();
            assert(high * pow2(64) == high * base());
            assert(limb as nat / pow2(0) == limb) by {
                vstd::arithmetic::div_mod::lemma_div_basics(limb as int);
            }
        }
    }
    Some(acc)
}

/// The Montgomery form of a 512-bit number modulo `p`, from its two halves:
/// the low half times `2^512 mod p` plus the high half times `2^768 mod p`,
/// both as Montgomery products.
pub fn from_u512(limbs: [u64; 8], r2: [u64; 4], r3: [u64; 4], p: [u64; 4], inv: u64) -> (r: [u64; 4])
    requires
        valid_montgomery(p, inv),
        limbs_value(r2) == (radix() * radix()) % limbs_value(p),
        limbs_value(r3) == (radix() * radix() * radix()) % limbs_value(p),
    ensures
        limbs_value(r) == to_mont(wide_value(limbs), limbs_value(p)),
        limbs_value(r) < limbs_value(p),
{
    let lo = [limbs[0], limbs[1], limbs[2], limbs[3]];
    let hi = [limbs[4], limbs[5], limbs[6], limbs[7]];
    let ghost pv = limbs_value(p);
    proof {
        vstd::arithmetic::div_mod::lemma_mod_bound(radix() * radix(), pv);
        vstd::arithmetic::div_mod::lemma_mod_bound(radix() * radix() * radix(), pv);
        lemma_product_bound_wide(limbs_value(lo), limbs_value(r2), pv);
        lemma_product_bound_wide(limbs_value(hi), limbs_value(r3), pv);
    }
    let a = self::mul(lo, r2, p, inv);
    let b = self::mul(hi, r3, p, inv);
    let r = self::add(a, b, p);
    proof {
        lemma_wide_reduction(limbs_value(lo), limbs_value(hi), pv);
        vstd::arithmetic::div_mod::lemma_mod_bound(limbs_value(a) + limbs_value(b), pv);
    }
    r
}

/// The number that eight bytes from position `at` on denote, least
/// significant first.
pub open spec fn le_word(bytes: [u8; 64], at: int) -> int {
    bytes[at] + bytes[at + 1] * 0x100 + bytes[at + 2] * 0x1_0000 + bytes[at + 3] * 0x100_0000
        + bytes[at + 4] * 0x1_0000_0000 + bytes[at + 5] * 0x100_0000_0000 + bytes[at + 6]
        * 0x1_0000_0000_0000 + bytes[at + 7] * 0x100_0000_0000_0000
}

/// The number of 512 bits that 64 bytes denote, least significant first.
pub open spec fn bytes_value(bytes: [u8; 64]) -> int {
    le_word(bytes, 0) + le_word(bytes, 8) * base() + le_word(bytes, 16) * base2() + le_word(
        bytes,
        24,
    ) * base3() + radix() * (le_word(bytes, 32) + le_word(bytes, 40) * base() + le_word(bytes, 48)
        * base2() + le_word(bytes, 56) * base3())
}

/// Eight bytes from position `at` on as a word, least significant first.
fn word_at(bytes: &[u8; 64], at: usize) -> (w: u64)
    requires
        at + 8 <= 64,
    ensures
        w == le_word(*bytes, at as int),
{
    (bytes[at] as u64) + (bytes[at + 1] as u64) * 0x100 + (bytes[at + 2] as u64) * 0x1_0000 + (
    bytes[at + 3] as u64) * 0x100_0000 + (bytes[at + 4] as u64) * 0x1_0000_0000 + (bytes[at
        + 5] as u64) * 0x100_0000_0000 + (bytes[at + 6] as u64) * 0x1_0000_0000_0000 + (bytes[at
        + 7] as u64) * 0x100_0000_0000_0000
}

/// Sixty-four bytes as the eight limbs of a 512-bit number, least
/// significant byte first.
pub fn words_from_bytes(bytes: [u8; 64]) -> (t: [u64; 8])
    ensures
        forall|k: int| 0 <= k < 8 ==> (#[trigger] t[k]) == le_word(bytes, 8 * k),
        wide_value(t) == bytes_value(bytes),
{
    [
        word_at(&bytes, 0),
        word_at(&bytes, 8),
        word_at(&bytes, 16),
        word_at(&bytes, 24),
        word_at(&bytes, 32),
        word_at(&bytes, 40),
        word_at(&bytes, 48),
        word_at(&bytes, 56),
    ]
}

/// Sixty-four bytes from the generator, by one call of
/// `rand_core::RngCore::fill_bytes` on a buffer of that length. Nothing is
/// claimed of the bytes. The generator decides what it does where it cannot
/// fill the buffer.
#[verifier::external_body]
fn fill_bytes<R: RngCore>(rand: &mut R) -> (bytes: [u8; 64]) {
    let mut bytes = [0u8; 64];
    rand.fill_bytes(&mut bytes);
    bytes
}

/// A residue modulo `p` in Montgomery form from 64 bytes of the generator:
/// what `from_bytes_wide` makes of the bytes drawn, whichever they are.
pub fn random_limbs<R: RngCore>(
    rand: &mut R,
    r2: [u64; 4],
    r3: [u64; 4],
    p: [u64; 4],
    inv: u64,
) -> (r: [u64; 4])
    requires
        valid_montgomery(p, inv),
        limbs_value(r2) == (radix() * radix()) % limbs_value(p),
        limbs_value(r3) == (radix() * radix() * radix()) % limbs_value(p),
    ensures
        limbs_value(r) < limbs_value(p),
{
    let bytes = fill_bytes(rand);
    from_bytes_wide(bytes, r2, r3, p, inv)
}

/// The Montgomery form modulo `p` of the 512-bit number that 64 bytes
/// denote, least significant byte first.
pub fn from_bytes_wide(
    bytes: [u8; 64],
    r2: [u64; 4],
    r3: [u64; 4],
    p: [u64; 4],
    inv: u64,
) -> (r: [u64; 4])
    requires
        valid_montgomery(p, inv),
        limbs_value(r2) == (radix() * radix()) % limbs_value(p),
        limbs_value(r3) == (radix() * radix() * radix()) % limbs_value(p),
    ensures
        limbs_value(r) == to_mont(bytes_value(bytes), limbs_value(p)),
        limbs_value(r) < limbs_value(p),
{
    from_u512(words_from_bytes(bytes), r2, r3, p, inv)
}

/// Two residues multiply to less than `2^256 * p`.
pub proof fn lemma_product_bound(x: int, y: int, p: int)
    requires
        0 <= x < p,
        0 <= y < p,
        p <= radix(),
    ensures
        0 <= x * y < radix() * p,
{
    let m = radix();
    assert(0 <= x * y < m * p) by (nonlinear_arith)
        requires
            0 <= x < p,
            0 <= y < p,
            p <= m,
    ;
}

/// A number below 2^256 times a residue is less than `2^256 * p`.
pub proof fn lemma_product_bound_wide(x: int, y: int, p: int)
    requires
        0 <= x < radix(),
        0 <= y < p,
    ensures
        0 <= x * y < radix() * p,
{
    let m = radix();
    assert(0 <= x * y < m * p) by (nonlinear_arith)
        requires
            0 <= x < m,
            0 <= y < p,
    ;
}

/// Multiplying by 2^256 and by its inverse, in either order, changes nothing
/// modulo `p`.
pub proof fn lemma_radix_cancels(x: int, p: int)
    requires
        1 < p,
        exists|y: int| is_radix_inverse(y, p),
    ensures
        from_mont(to_mont(x, p), p) == x % p,
        to_mont(from_mont(x, p), p) == x % p,
        (x * (radix() * radix_inverse(p))) % p == x % p,
        is_radix_inverse(radix_inverse(p), p),
{
    let ri = radix_inverse(p);
    let m = radix();
    assert(is_radix_inverse(ri, p));
    vstd::arithmetic::div_mod::lemma_mul_mod_noop_right(x, m * ri, p);
    assert((x * (m * ri)) % p == (x * 1) % p);
    vstd::arithmetic::mul::lemma_mul_is_associative(x, m, ri);
    vstd::arithmetic::div_mod::lemma_mul_mod_noop_left(x * m, ri, p);
    lemma_swap_factors(x, m, ri);
    vstd::arithmetic::div_mod::lemma_mul_mod_noop_left(x * ri, m, p);
}

/// Limb arrays that denote one number are the same, limb by limb.
pub proof fn lemma_limbs_unique(a: [u64; 4], b: [u64; 4])
    requires
        limbs_value(a) == limbs_value(b),
    ensures
        a[0] == b[0],
        a[1] == b[1],
        a[2] == b[2],
        a[3] == b[3],
{
    let m = base();
    let ka = a[1] + a[2] * m + a[3] * base2();
    let kb = b[1] + b[2] * m + b[3] * base2();
    assert(limbs_value(a) == ka * m + a[0]);
    assert(limbs_value(b) == kb * m + b[0]);
    lemma_mod_unique(limbs_value(a), m, ka, a[0] as int);
    lemma_mod_unique(limbs_value(b), m, kb, b[0] as int);
    assert(ka == kb);
    let la = a[2] + a[3] * m;
    let lb = b[2] + b[3] * m;
    assert(ka == la * m + a[1]);
    assert(kb == lb * m + b[1]);
    lemma_mod_unique(ka, m, la, a[1] as int);
    lemma_mod_unique(kb, m, lb, b[1] as int);
    assert(la == lb);
    lemma_mod_unique(la, m, a[3] as int, a[2] as int);
    lemma_mod_unique(lb, m, b[3] as int, b[2] as int);
}

/// There is one inverse of 2^256 modulo `p` at most.
pub proof fn lemma_radix_inverse_unique(x: int, p: int)
    requires
        1 < p,
        is_radix_inverse(x, p),
    ensures
        radix_inverse(p) == x,
{
    let y = radix_inverse(p);
    let m = radix();
    lemma_radix_cancels(x, p);
    // x = x * (m * y) = y * (m * x) = y modulo p
    assert(x * (m * y) == y * (m * x)) by (nonlinear_arith);
    vstd::arithmetic::div_mod::lemma_mul_mod_noop_right(y, m * x, p);
    vstd::arithmetic::div_mod::lemma_small_mod(x as nat, p as nat);
    vstd::arithmetic::div_mod::lemma_small_mod(y as nat, p as nat);
}

/// The Montgomery product of the forms of `x` and `y` is the form of `x * y`.
pub proof fn lemma_mont_product(x: int, y: int, p: int)
    requires
        1 < p,
        exists|z: int| is_radix_inverse(z, p),
    ensures
        mont_reduce(to_mont(x, p) * to_mont(y, p), p) == to_mont(x * y, p),
{
    let ri = radix_inverse(p);
    let m = radix();
    // (x m)(y m) ri = ((x y) m)(m ri)
    vstd::arithmetic::div_mod::lemma_mul_mod_noop_general(x * m, y * m, p);
    vstd::arithmetic::div_mod::lemma_mul_mod_noop_left(to_mont(x, p) * to_mont(y, p), ri, p);
    vstd::arithmetic::div_mod::lemma_mul_mod_noop_left((x * m) * (y * m), ri, p);
    assert(mont_reduce(to_mont(x, p) * to_mont(y, p), p) == (((x * m) * (y * m)) * ri) % p);
    assert(((x * m) * (y * m)) * ri == ((x * y) * m) * (m * ri)) by (nonlinear_arith);
    lemma_radix_cancels((x * y) * m, p);
    vstd::arithmetic::div_mod::lemma_mod_mod((x * y) * m, p, 1);
    vstd::arithmetic::div_mod::lemma_mod_twice((x * y) * m, p);
}

/// Squaring the form of `b^e` gives the form of `b^(2e)`.
proof fn lemma_square_step(acc: int, b: int, e: nat, p: int)
    requires
        1 < p,
        exists|z: int| is_radix_inverse(z, p),
        acc == to_mont(pow(b, e), p),
    ensures
        mont_reduce(acc * acc, p) == to_mont(pow(b, 2 * e), p),
{
    lemma_mont_product(pow(b, e), pow(b, e), p);
    vstd::arithmetic::power::lemma_pow_adds(b, e, e);
}

/// Multiplying the form of `b^e` by the form of `b` gives the form of `b^(e+1)`.
proof fn lemma_multiply_step(acc: int, a: int, b: int, e: nat, p: int)
    requires
        1 < p,
        exists|z: int| is_radix_inverse(z, p),
        acc == to_mont(pow(b, e), p),
        0 <= a < p,
        b == from_mont(a, p),
    ensures
        mont_reduce(acc * a, p) == to_mont(pow(b, e + 1), p),
{
    lemma_radix_cancels(a, p);
    vstd::arithmetic::div_mod::lemma_small_mod(a as nat, p as nat);
    assert(a == to_mont(b, p));
    lemma_mont_product(pow(b, e), b, p);
    vstd::arithmetic::power::lemma_pow_adds(b, e, 1);
    vstd::arithmetic::power::lemma_pow1(b);
}

/// Taking one more bit of a limb into an exponent read from the top.
pub proof fn lemma_next_bit(limb: u64, j: u32, high: int)
    requires
        j < 64,
    ensures
        ((limb >> j) & 1) == 0 || ((limb >> j) & 1) == 1,
        high * pow2((64 - j) as nat) + limb as nat / pow2(j as nat) == 2 * (high * pow2(
            (63 - j) as nat,
        ) + limb as nat / pow2((j + 1) as nat)) + ((limb >> j) & 1),
{
    let y = limb >> j;
    assert((y & 1) == y % 2) by (bit_vector);
    vstd::bits::lemma_u64_shr_is_div(limb, j as u64);
    vstd::arithmetic::power2::lemma_pow2_unfold((j + 1) as nat);
    vstd::arithmetic::power2::lemma_pow2_unfold((64 - j) as nat);
    vstd::arithmetic::power2::lemma_pow2_pos(j as nat);
    vstd::arithmetic::div_mod::lemma_div_denominator(limb as int, pow2(j as nat) as int, 2);
    let s = pow2((63 - j) as nat) as int;
    assert(high * (2 * s) == 2 * (high * s)) by (nonlinear_arith);
    let d = pow2(j as nat) as int;
    assert(d * 2 == 2 * d);
}

/// The wide reduction: with `r2 = 2^512` and `r3 = 2^768` modulo `p`, the two
/// Montgomery products add up to the form of `lo + 2^256 * hi`.
proof fn lemma_wide_reduction(lo: int, hi: int, p: int)
    requires
        1 < p,
        exists|z: int| is_radix_inverse(z, p),
    ensures
        (mont_reduce(lo * ((radix() * radix()) % p), p) + mont_reduce(
            hi * ((radix() * radix() * radix()) % p),
            p,
        )) % p == to_mont(lo + radix() * hi, p),
{
    let m = radix();
    let ri = radix_inverse(p);
    // lo * m^2 * ri = (lo * m) * (m * ri)
    vstd::arithmetic::div_mod::lemma_mul_mod_noop_right(lo, m * m, p);
    vstd::arithmetic::div_mod::lemma_mul_mod_noop_left(lo * ((m * m) % p), ri, p);
    vstd::arithmetic::div_mod::lemma_mul_mod_noop_left(lo * (m * m), ri, p);
    assert((lo * (m * m)) * ri == (lo * m) * (m * ri)) by (nonlinear_arith);
    lemma_radix_cancels(lo * m, p);
    assert(mont_reduce(lo * ((m * m) % p), p) == (lo * m) % p);
    vstd::arithmetic::div_mod::lemma_mul_mod_noop_right(hi, m * m * m, p);
    vstd::arithmetic::div_mod::lemma_mul_mod_noop_left(hi * ((m * m * m) % p), ri, p);
    vstd::arithmetic::div_mod::lemma_mul_mod_noop_left(hi * (m * m * m), ri, p);
    assert((hi * (m * m * m)) * ri == ((hi * m) * m) * (m * ri)) by (nonlinear_arith);
    lemma_radix_cancels((hi * m) * m, p);
    assert(mont_reduce(hi * ((m * m * m) % p), p) == ((hi * m) * m) % p);
    vstd::arithmetic::div_mod::lemma_add_mod_noop(lo * m, (hi * m) * m, p);
    assert(lo * m + (hi * m) * m == (lo + m * hi) * m) by (nonlinear_arith);
}

/// One row of the schoolbook product.
proof fn lemma_row(x: int, b: [u64; 4])
    ensures
        x * b[0] + x * b[1] * base() + x * b[2] * base2() + x * b[3] * base3() == x * limbs_value(
            b,
        ),
{
    let (b0, b1, b2, b3) = (b[0] as int, b[1] as int, b[2] as int, b[3] as int);
    vstd::arithmetic::mul::lemma_mul_is_associative(x, b1, base());
    vstd::arithmetic::mul::lemma_mul_is_associative(x, b2, base2());
    vstd::arithmetic::mul::lemma_mul_is_associative(x, b3, base3());
    lemma_distribute4(x, b0, b1 * base(), b2 * base2(), b3 * base3());
}

/// The rows of the schoolbook product add up to the product.
proof fn lemma_rows(a0: int, a1: int, a2: int, a3: int, b: int, e1: int, e2: int, e3: int)
    ensures
        a0 * b + (a1 * b) * e1 + (a2 * b) * e2 + (a3 * b) * e3 == (a0 + a1 * e1 + a2 * e2 + a3
            * e3) * b,
{
    lemma_swap_factors(a1, b, e1);
    lemma_swap_factors(a2, b, e2);
    lemma_swap_factors(a3, b, e3);
    lemma_distribute4(b, a0, a1 * e1, a2 * e2, a3 * e3);
    vstd::arithmetic::mul::lemma_mul_is_commutative(b, a0);
    vstd::arithmetic::mul::lemma_mul_is_commutative(b, a1 * e1);
    vstd::arithmetic::mul::lemma_mul_is_commutative(b, a2 * e2);
    vstd::arithmetic::mul::lemma_mul_is_commutative(b, a3 * e3);
    vstd::arithmetic::mul::lemma_mul_is_commutative(b, a0 + a1 * e1 + a2 * e2 + a3 * e3);
}

pub proof fn lemma_swap_factors(a: int, b: int, e: int)
    ensures
        (a * b) * e == (a * e) * b,
{
    vstd::arithmetic::mul::lemma_mul_is_associative(a, b, e);
    vstd::arithmetic::mul::lemma_mul_is_associative(a, e, b);
    vstd::arithmetic::mul::lemma_mul_is_commutative(b, e);
}

pub proof fn lemma_distribute4(x: int, a: int, b: int, c: int, d: int)
    ensures
        x * (a + b + c + d) == x * a + x * b + x * c + x * d,
{
    vstd::arithmetic::mul::lemma_mul_is_distributive_add(x, a + b + c, d);
    vstd::arithmetic::mul::lemma_mul_is_distributive_add(x, a + b, c);
    vstd::arithmetic::mul::lemma_mul_is_distributive_add(x, a, b);
}

/// Shifting each limb left by one and taking in the top bit of the limb below
/// doubles the number, as long as the top bit of the whole is clear.
proof fn lemma_shifted_value(a: [u64; 4], s: [u64; 4])
    requires
        limbs_value(a) < 0x8000_0000_0000_0000_0000_0000_0000_0000_0000_0000_0000_0000_0000_0000_0000_0000int,
        s[0] == (a[0] % 0x8000_0000_0000_0000) * 2,
        s[1] == (a[1] % 0x8000_0000_0000_0000) * 2 + a[0] / 0x8000_0000_0000_0000,
        s[2] == (a[2] % 0x8000_0000_0000_0000) * 2 + a[1] / 0x8000_0000_0000_0000,
        s[3] == (a[3] % 0x8000_0000_0000_0000) * 2 + a[2] / 0x8000_0000_0000_0000,
    ensures
        limbs_value(s) == 2 * limbs_value(a),
{
    let h: int = 0x8000_0000_0000_0000;
    let (q0, r0) = (a[0] as int / h, a[0] as int % h);
    let (q1, r1) = (a[1] as int / h, a[1] as int % h);
    let (q2, r2) = (a[2] as int / h, a[2] as int % h);
    let (q3, r3) = (a[3] as int / h, a[3] as int % h);
    assert(a[0] == q0 * h + r0);
    assert(a[1] == q1 * h + r1);
    assert(a[2] == q2 * h + r2);
    assert(a[3] == q3 * h + r3);
    assert(q3 == 0);
    assert(limbs_value(a) == r0 + q0 * h + (r1 + q1 * h) * base() + (r2 + q2 * h) * base2() + r3
        * base3());
    assert(limbs_value(s) == 2 * r0 + (2 * r1 + q0) * base() + (2 * r2 + q1) * base2() + (2 * r3
        + q2) * base3());
}

/// A remainder is known by its range and by differing from the number by a
/// multiple of the modulus.
pub proof fn lemma_mod_unique(x: int, m: int, k: int, r: int)
    requires
        0 <= r < m,
        x == k * m + r,
    ensures
        r == x % m,
{
    vstd::arithmetic::div_mod::lemma_fundamental_div_mod_converse(x, m, k, r);
}

/// A number below `2p` that loses `p` when it is not below `p` is reduced.
proof fn lemma_reduce_once(s: int, p: int, r: int)
    requires
        0 < p,
        0 <= s < 2 * p,
        r == (if s < p { s } else { s - p }),
    ensures
        r == s % p,
{
    if s < p {
        vstd::arithmetic::div_mod::lemma_small_mod(s as nat, p as nat);
    } else {
        vstd::arithmetic::div_mod::lemma_small_mod((s - p) as nat, p as nat);
        vstd::arithmetic::div_mod::lemma_mod_add_multiples_vanish(s - p, p);
    }
}

} // verus!
