//! Carry-propagating primitives on 64-bit words.

use vstd::prelude::*;

verus! {

/// 2^64, the radix of a limb.
pub open spec fn base() -> int {
    0x1_0000_0000_0000_0000
}

/// The 0/1 borrow that a borrow word carries in its top bit.
pub open spec fn borrow_bit(borrow: u64) -> int {
    if borrow >= 0x8000_0000_0000_0000 {
        1
    } else {
        0
    }
}

/// A borrow word as the subtraction primitives produce it: all zeros or all ones.
pub open spec fn is_mask(borrow: u64) -> bool {
    borrow == 0 || borrow == u64::MAX
}

proof fn lemma_split(t: u128)
    by (bit_vector)
    ensures
        (t as u64) == t % 0x1_0000_0000_0000_0000,
        (t >> 64) == t / 0x1_0000_0000_0000_0000,
        ((t >> 64) as u64) == (t >> 64) % 0x1_0000_0000_0000_0000,
{
}

pub proof fn lemma_top_bit(b: u64)
    by (bit_vector)
    ensures
        (b >> 63) == (if b >= 0x8000_0000_0000_0000 { 1u64 } else { 0u64 }),
{
}

/// `a + b` as a low word and a carry.
pub fn adb(a: u64, b: u64) -> (r: (u64, u64))
    ensures
        r.0 + r.1 * base() == a + b,
        r.1 <= 1,
{
    let t: u128 = a as u128 + b as u128;
    proof {
        lemma_split(t);
    }
    (t as u64, (t >> 64) as u64)
}

/// `a + b + carry` as a low word and a carry.
pub fn adc(a: u64, b: u64, carry: u64) -> (r: (u64, u64))
    ensures
        r.0 + r.1 * base() == a + b + carry,
        r.1 <= 2,
        carry <= 1 ==> r.1 <= 1,
{
    let t: u128 = a as u128 + b as u128 + carry as u128;
    proof {
        lemma_split(t);
    }
    (t as u64, (t >> 64) as u64)
}

/// `a - b` as a low word and a borrow word, all ones exactly when `a < b`.
pub fn sba(a: u64, b: u64) -> (r: (u64, u64))
    ensures
        r.0 - borrow_bit(r.1) * base() == a - b,
        is_mask(r.1),
        r.1 == u64::MAX <==> a < b,
{
    let t: u128 = (a as u128).wrapping_sub(b as u128);
    proof {
        lemma_split(t);
    }
    (t as u64, (t >> 64) as u64)
}

/// `a - b - bit` as a low word and a borrow word, where `bit` is the top bit
/// of `borrow`; the borrow word is all ones exactly on underflow.
pub fn sbb(a: u64, b: u64, borrow: u64) -> (r: (u64, u64))
    ensures
        r.0 - borrow_bit(r.1) * base() == a - b - borrow_bit(borrow),
        is_mask(r.1),
        r.1 == u64::MAX <==> a < b + borrow_bit(borrow),
{
    proof {
        lemma_top_bit(borrow);
    }
    let t: u128 = (a as u128).wrapping_sub(b as u128 + (borrow >> 63) as u128);
    proof {
        lemma_split(t);
    }
    (t as u64, (t >> 64) as u64)
}

/// `a + b * c + carry` as a low word and a high word.
pub fn mac(a: u64, b: u64, c: u64, carry: u64) -> (r: (u64, u64))
    ensures
        r.0 + r.1 * base() == a + b * c + carry,
{
    proof {
        assert(b * c <= 0xffff_ffff_ffff_ffff * 0xffff_ffff_ffff_ffff) by (nonlinear_arith)
            requires
                b <= 0xffff_ffff_ffff_ffff,
                c <= 0xffff_ffff_ffff_ffff,
        ;
    }
    let t: u128 = a as u128 + b as u128 * c as u128 + carry as u128;
    proof {
        lemma_split(t);
    }
    (t as u64, (t >> 64) as u64)
}

} // verus!
