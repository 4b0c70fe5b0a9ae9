//! The scalar field Fr, as far as the pairing's callers need it: random
//! elements and their products.

use crate::limbs::{
    is_radix_inverse, lemma_radix_inverse_unique, limbs_value, radix, radix_inverse,
    valid_montgomery,
};
use crate::math::base;
use rand_core::RngCore;
use vstd::prelude::*;

verus! {

/// The order `r` of the groups, least significant limb first.
pub const MODULUS: [u64; 4] = [
    0x43e1f593f0000001,
    0x2833e84879b97091,
    0xb85045b68181585d,
    0x30644e72e131a029,
];

/// `R = 2^256 mod r`.
pub const R: [u64; 4] = [
    0xac96341c4ffffffb,
    0x36fc76959f60cd29,
    0x666ea36f7879462e,
    0x0e0a77c19a07df2f,
];

/// `R^2 = 2^512 mod r`.
pub const R2: [u64; 4] = [
    0x1bb8e645ae216da7,
    0x53fe3ab1e35c59e3,
    0x8c49833d53bb8085,
    0x0216d0b17f4e44a5,
];

/// `R^3 = 2^768 mod r`.
pub const R3: [u64; 4] = [
    0x5e94d8e1b4bf0040,
    0x2a489cbe1cfbb6b8,
    0x893cc664a19fcfed,
    0x0cf8594b7fcc657c,
];

/// `INV = -r^-1 mod 2^64`.
pub const INV: u64 = 0xc2e1f593efffffff;

/// The order of the groups.
pub open spec fn order() -> int {
    0x30644e72e131a029b85045b68181585d2833e84879b9709143e1f593f0000001int
}

/// The inverse of `2^256` modulo the order.
pub open spec fn r_inv() -> int {
    0x15ebf95182c5551cc8260de4aeb85d5d090ef5a9e111ec87dc5ba0056db1194eint
}

/// What the constants of this module are to each other.
pub proof fn lemma_constants()
    ensures
        limbs_value(MODULUS) == order(),
        limbs_value(R2) == (radix() * radix()) % order(),
        limbs_value(R3) == (radix() * radix() * radix()) % order(),
        is_radix_inverse(r_inv(), order()),
        radix_inverse(order()) == r_inv(),
        valid_montgomery(MODULUS, INV),
{
    assert(limbs_value(MODULUS) == order());
    assert(limbs_value(R2) == (radix() * radix()) % order());
    assert(limbs_value(R3) == (radix() * radix() * radix()) % order());
    assert((radix() * r_inv()) % order() == 1);
    assert((MODULUS[0] * INV + 1) % base() == 0);
    assert(is_radix_inverse(r_inv(), limbs_value(MODULUS)));
    assert(crate::limbs::valid_modulus(MODULUS));
    lemma_radix_inverse_unique(r_inv(), order());
}

/// An element of Fr. The limbs hold its Montgomery form `x * 2^256 mod r`.
pub struct Fr(pub [u64; 4]);

impl View for Fr {
    type V = int;

    /// The element of Fr that the limbs stand for, as a number below `r`.
    open spec fn view(&self) -> int {
        (limbs_value(self.0) * r_inv()) % order()
    }
}

impl Fr {
    /// The limbs are reduced: they denote a number below `r`.
    pub open spec fn wf(&self) -> bool {
        limbs_value(self.0) < order()
    }

    /// The element that 64 bytes denote: the bytes as a number of 512 bits,
    /// least significant byte first, modulo `r`.
    pub fn from_bytes_wide(bytes: [u8; 64]) -> (r: Self)
        ensures
            r.wf(),
            r@ == crate::limbs::bytes_value(bytes) % order(),
    {
        proof {
            lemma_constants();
        }
        let l = crate::limbs::from_bytes_wide(bytes, R2, R3, MODULUS, INV);
        proof {
            crate::limbs::lemma_radix_cancels(crate::limbs::bytes_value(bytes), order());
        }
        Self(l)
    }

    /// An element from 64 bytes of the generator, which is close to uniform
    /// where the bytes are uniform.
    pub fn random<R: RngCore>(rand: &mut R) -> (r: Self)
        ensures
            r.wf(),
    {
        proof {
            lemma_constants();
        }
        Self(crate::limbs::random_limbs(rand, R2, R3, MODULUS, INV))
    }

    pub fn mul(self, rhs: Self) -> (r: Self)
        requires
            self.wf(),
            rhs.wf(),
        ensures
            r.wf(),
            r@ == (self@ * rhs@) % order(),
    {
        proof {
            lemma_constants();
            crate::limbs::lemma_product_bound(limbs_value(self.0), limbs_value(rhs.0), order());
            lemma_view_mul(limbs_value(self.0), limbs_value(rhs.0));
        }
        Self(crate::limbs::mul(self.0, rhs.0, MODULUS, INV))
    }
}

/// The Montgomery product of two forms stands for the product of the elements.
proof fn lemma_view_mul(x: int, y: int)
    ensures
        (crate::limbs::mont_reduce(x * y, order()) * r_inv()) % order() == ((x * r_inv())
            % order() * ((y * r_inv()) % order())) % order(),
{
    lemma_constants();
    let ri = r_inv();
    vstd::arithmetic::div_mod::lemma_mul_mod_noop_left((x * y) * ri, ri, order());
    assert(((x * y) * ri) * ri == (x * ri) * (y * ri)) by (nonlinear_arith);
    vstd::arithmetic::div_mod::lemma_mul_mod_noop_general(x * ri, y * ri, order());
}

} // verus!
