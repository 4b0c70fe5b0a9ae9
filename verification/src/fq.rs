//! The base field Fq, in Montgomery form on four limbs.

use crate::limbs::{
    is_radix_inverse, lemma_radix_cancels, limbs_value, mont_reduce, radix, radix_inverse, to_mont,
    valid_montgomery, wide_value,
};
use crate::math::base;
use crate::model::base::{canonical, fq_add, fq_inv, fq_mul, fq_neg, fq_sub, q};
use vstd::arithmetic::div_mod::{
    lemma_add_mod_noop, lemma_mod_bound, lemma_mul_mod_noop_general, lemma_mul_mod_noop_left,
    lemma_mul_mod_noop_right, lemma_small_mod, lemma_sub_mod_noop,
};
use vstd::arithmetic::mul::{
    lemma_mul_is_distributive_add_other_way, lemma_mul_is_distributive_sub_other_way,
};
use vstd::arithmetic::power::pow;
use vstd::prelude::*;

verus! {

/// The modulus `q`, least significant limb first.
pub const MODULUS: [u64; 4] = [
    0x3c208c16d87cfd47,
    0x97816a916871ca8d,
    0xb85045b68181585d,
    0x30644e72e131a029,
];

/// `R = 2^256 mod q`, the Montgomery form of one.
pub const R: [u64; 4] = [
    0xd35d438dc58f0d9d,
    0x0a78eb28f5c70b3d,
    0x666ea36f7879462c,
    0x0e0a77c19a07df2f,
];

/// `R^2 = 2^512 mod q`, which lifts a number into Montgomery form.
pub const R2: [u64; 4] = [
    0xf32cfc5b538afa89,
    0xb5e71911d44501fb,
    0x47ab1eff0a417ff6,
    0x06d89f71cab8351f,
];

/// `INV = -q^-1 mod 2^64`.
pub const INV: u64 = 0x87d20782e4866389;

/// The inverse of `2^256` modulo `q`.
pub open spec fn r_inv() -> int {
    0x2e67157159e5c639cf63e9cfb74492d9eb2022850278edf8ed84884a014afa37int
}

/// What the constants of this module are to each other.
pub proof fn lemma_constants()
    ensures
        limbs_value(MODULUS) == q(),
        limbs_value(R) == radix() % q(),
        limbs_value(R2) == (radix() * radix()) % q(),
        is_radix_inverse(r_inv(), q()),
        radix_inverse(q()) == r_inv(),
        valid_montgomery(MODULUS, INV),
{
    assert(limbs_value(MODULUS) == q());
    assert(limbs_value(R) == radix() % q());
    assert(limbs_value(R2) == (radix() * radix()) % q());
    assert((radix() * r_inv()) % q() == 1);
    assert((MODULUS[0] * INV + 1) % base() == 0);
    crate::limbs::lemma_radix_inverse_unique(r_inv(), q());
}

/// An element of Fq. The limbs hold its Montgomery form `x * 2^256 mod q`.
#[derive(Clone, Copy, Debug)]
pub struct Fq(pub [u64; 4]);

impl View for Fq {
    type V = int;

    /// The element of Fq that the limbs stand for, as a number below `q`.
    open spec fn view(&self) -> int {
        self.value()
    }
}

impl PartialEq for Fq {
    fn eq(&self, other: &Self) -> (r: bool) {
        self.0[0] == other.0[0] && self.0[1] == other.0[1] && self.0[2] == other.0[2] && self.0[3]
            == other.0[3]
    }
}

impl vstd::std_specs::cmp::PartialEqSpecImpl for Fq {
    open spec fn obeys_eq_spec() -> bool {
        true
    }

    open spec fn eq_spec(&self, other: &Self) -> bool {
        self.same(other)
    }
}

impl Eq for Fq {

}

impl Fq {
    /// The limbs are reduced: they denote a number below `q`.
    #[verifier::opaque]
    pub open spec fn wf(&self) -> bool {
        limbs_value(self.0) < q()
    }

    /// The element of Fq that the limbs stand for: their number, out of
    /// Montgomery form.
    #[verifier::opaque]
    pub open spec fn value(&self) -> int {
        (limbs_value(self.0) * r_inv()) % q()
    }

    /// An element whose limbs denote the Montgomery form of a canonical
    /// number `v` is reduced and has the value `v`.
    pub proof fn lemma_from_limbs(l: [u64; 4], v: int)
        requires
            canonical(v),
            limbs_value(l) == to_mont(v, q()),
        ensures
            Fq(l).wf(),
            Fq(l)@ == v,
    {
        reveal(Fq::wf);
        reveal(Fq::value);
        lemma_constants();
        lemma_radix_cancels(v, q());
        lemma_small_mod(v as nat, q() as nat);
        lemma_mod_bound(v * radix(), q());
    }

    /// Limb by limb the same.
    pub open spec fn same(&self, other: &Self) -> bool {
        self.0[0] == other.0[0] && self.0[1] == other.0[1] && self.0[2] == other.0[2] && self.0[3]
            == other.0[3]
    }

    /// The value of an element is canonical.
    pub proof fn lemma_canonical(self)
        ensures
            canonical(self@),
    {
        reveal(Fq::value);
        lemma_mod_bound(limbs_value(self.0) * r_inv(), q());
    }

    /// Reduced elements of one value have the same limbs.
    pub proof fn lemma_injective(self, other: Self)
        requires
            self.wf(),
            other.wf(),
            self@ == other@,
        ensures
            self.same(&other),
    {
        reveal(Fq::wf);
        reveal(Fq::value);
        lemma_view_injective(limbs_value(self.0), limbs_value(other.0));
        crate::limbs::lemma_limbs_unique(self.0, other.0);
    }

    pub fn zero() -> (r: Self)
        ensures
            r.wf(),
            r@ == 0,
    {
        let r = Self([0;4]);
        proof {
            reveal(Fq::wf);
            reveal(Fq::value);
            assert(limbs_value(r.0) == 0);
            assert(0 * r_inv() == 0);
            lemma_small_mod(0, q() as nat);
        }
        r
    }

    pub fn is_zero(self) -> (b: bool)
        requires
            self.wf(),
        ensures
            b == (self@ == 0),
    {
        proof {
            reveal(Fq::wf);
            reveal(Fq::value);
            lemma_view_injective(limbs_value(self.0), 0);
            assert(0 * r_inv() == 0);
        }
        self.0[0] == 0 && self.0[1] == 0 && self.0[2] == 0 && self.0[3] == 0
    }

    pub fn one() -> (r: Self)
        ensures
            r.wf(),
            r@ == 1,
    {
        proof {
            reveal(Fq::wf);
            reveal(Fq::value);
            lemma_constants();
            lemma_mod_bound(radix(), q());
            lemma_mul_mod_noop_left(radix(), r_inv(), q());
        }
        Self(R)
    }

    pub fn double(self) -> (r: Self)
        requires
            self.wf(),
        ensures
            r.wf(),
            r@ == fq_add(self@, self@),
    {
        proof {
            reveal(Fq::wf);
            reveal(Fq::value);
            lemma_constants();
            lemma_view_add(limbs_value(self.0), limbs_value(self.0));
            lemma_mod_bound(2 * limbs_value(self.0), q());
        }
        Self(crate::limbs::double(self.0, MODULUS))
    }

    pub fn square(self) -> (r: Self)
        requires
            self.wf(),
        ensures
            r.wf(),
            r@ == fq_mul(self@, self@),
    {
        proof {
            reveal(Fq::wf);
            reveal(Fq::value);
            lemma_constants();
            crate::limbs::lemma_product_bound(limbs_value(self.0), limbs_value(self.0), q());
            lemma_view_mul(limbs_value(self.0), limbs_value(self.0));
        }
        Self(crate::limbs::square(self.0, MODULUS, INV))
    }

    /// The inverse, which is Fermat's `self^(q-2)`, and nothing for zero.
    pub fn invert(self) -> (r: Option<Self>)
        requires
            self.wf(),
        ensures
            r is None <==> self@ == 0,
            r matches Some(x) ==> x.wf() && x@ == fq_inv(self@) && fq_mul(self@, x@) == 1,
    {
        proof {
            reveal(Fq::wf);
            reveal(Fq::value);
            lemma_constants();
            lemma_mod_bound(limbs_value(self.0) * r_inv(), q());
            if self@ != 0 {
                lemma_small_mod(self@ as nat, q() as nat);
                crate::model::base::lemma_fq_inverse(self@);
            }
            lemma_view_injective(limbs_value(self.0), 0);
            assert(0 * r_inv() == 0);
            lemma_radix_cancels(pow(self@, (q() - 2) as nat), q());
        }
        match crate::limbs::invert(self.0, crate::limbs::little_fermat(MODULUS), R, MODULUS, INV) {
            Some(x) => Some(Self(x)),
            None => None,
        }
    }

    /// The element that the number `val` denotes: `val mod q`, lifted into
    /// Montgomery form by a Montgomery product with `R^2`.
    pub fn to_mont_form(val: [u64; 4]) -> (r: Self)
        ensures
            r.wf(),
            r@ == limbs_value(val) % q(),
            limbs_value(val) < q() ==> r@ == limbs_value(val),
    {
        proof {
            reveal(Fq::wf);
            reveal(Fq::value);
            lemma_constants();
            lemma_mod_bound(radix() * radix(), q());
            crate::limbs::lemma_product_bound_wide(limbs_value(val), limbs_value(R2), q());
            lemma_view_lift(limbs_value(val));
            if limbs_value(val) < q() {
                lemma_small_mod(limbs_value(val) as nat, q() as nat);
            }
        }
        Self(crate::limbs::mul(val, R2, MODULUS, INV))
    }

    /// The number below `q` that this element is, out of Montgomery form.
    pub fn from_mont_form(self) -> (r: [u64; 4])
        requires
            self.wf(),
        ensures
            limbs_value(r) == self@,
    {
        proof {
            reveal(Fq::wf);
            reveal(Fq::value);
            lemma_constants();
            assert(limbs_value(self.0) < radix() * q());
        }
        let t = [self.0[0], self.0[1], self.0[2], self.0[3], 0, 0, 0, 0];
        assert(wide_value(t) == limbs_value(self.0));
        crate::limbs::mont(t, MODULUS, INV)
    }

    pub fn add(self, rhs: Self) -> (r: Self)
        requires
            self.wf(),
            rhs.wf(),
        ensures
            r.wf(),
            r@ == fq_add(self@, rhs@),
    {
        proof {
            reveal(Fq::wf);
            reveal(Fq::value);
            lemma_constants();
            lemma_view_add(limbs_value(self.0), limbs_value(rhs.0));
            lemma_mod_bound(limbs_value(self.0) + limbs_value(rhs.0), q());
        }
        Self(crate::limbs::add(self.0, rhs.0, MODULUS))
    }

    pub fn add_assign(&mut self, rhs: Self)
        requires
            old(self).wf(),
            rhs.wf(),
        ensures
            final(self).wf(),
            final(self)@ == fq_add(old(self)@, rhs@),
    {
        *self = self.add(rhs);
    }

    pub fn sub(self, rhs: Self) -> (r: Self)
        requires
            self.wf(),
            rhs.wf(),
        ensures
            r.wf(),
            r@ == fq_sub(self@, rhs@),
    {
        proof {
            reveal(Fq::wf);
            reveal(Fq::value);
            lemma_constants();
            lemma_view_sub(limbs_value(self.0), limbs_value(rhs.0));
            lemma_mod_bound(limbs_value(self.0) - limbs_value(rhs.0), q());
        }
        Self(crate::limbs::sub(self.0, rhs.0, MODULUS))
    }

    pub fn neg(self) -> (r: Self)
        requires
            self.wf(),
        ensures
            r.wf(),
            r@ == fq_neg(self@),
    {
        proof {
            reveal(Fq::wf);
            reveal(Fq::value);
            lemma_constants();
            lemma_view_sub(0, limbs_value(self.0));
            assert(0 * r_inv() == 0);
            lemma_small_mod(0, q() as nat);
            lemma_mod_bound(-limbs_value(self.0), q());
        }
        Self(crate::limbs::neg(self.0, MODULUS))
    }

    pub fn mul(self, rhs: Self) -> (r: Self)
        requires
            self.wf(),
            rhs.wf(),
        ensures
            r.wf(),
            r@ == fq_mul(self@, rhs@),
    {
        proof {
            reveal(Fq::wf);
            reveal(Fq::value);
            lemma_constants();
            crate::limbs::lemma_product_bound(limbs_value(self.0), limbs_value(rhs.0), q());
            lemma_view_mul(limbs_value(self.0), limbs_value(rhs.0));
        }
        Self(crate::limbs::mul(self.0, rhs.0, MODULUS, INV))
    }

    pub fn mul_assign(&mut self, rhs: Self)
        requires
            old(self).wf(),
            rhs.wf(),
        ensures
            final(self).wf(),
            final(self)@ == fq_mul(old(self)@, rhs@),
    {
        *self = self.mul(rhs);
    }
}

/// Two reduced Montgomery forms of one element are the same number.
pub proof fn lemma_view_injective(x: int, y: int)
    requires
        0 <= x < q(),
        0 <= y < q(),
    ensures
        (x * r_inv()) % q() == (y * r_inv()) % q() <==> x == y,
{
    lemma_constants();
    lemma_radix_cancels(x, q());
    lemma_radix_cancels(y, q());
    lemma_small_mod(x as nat, q() as nat);
    lemma_small_mod(y as nat, q() as nat);
}

/// The sum of two Montgomery forms stands for the sum of the elements.
proof fn lemma_view_add(x: int, y: int)
    ensures
        (((x + y) % q()) * r_inv()) % q() == fq_add((x * r_inv()) % q(), (y * r_inv()) % q()),
{
    lemma_mul_mod_noop_left(x + y, r_inv(), q());
    lemma_mul_is_distributive_add_other_way(r_inv(), x, y);
    lemma_add_mod_noop(x * r_inv(), y * r_inv(), q());
}

/// The difference of two Montgomery forms stands for the difference of the
/// elements.
proof fn lemma_view_sub(x: int, y: int)
    ensures
        (((x - y) % q()) * r_inv()) % q() == fq_sub((x * r_inv()) % q(), (y * r_inv()) % q()),
{
    lemma_mul_mod_noop_left(x - y, r_inv(), q());
    lemma_mul_is_distributive_sub_other_way(r_inv(), x, y);
    lemma_sub_mod_noop(x * r_inv(), y * r_inv(), q());
}

/// The Montgomery product of two forms stands for the product of the elements.
proof fn lemma_view_mul(x: int, y: int)
    ensures
        (mont_reduce(x * y, q()) * r_inv()) % q() == fq_mul(
            (x * r_inv()) % q(),
            (y * r_inv()) % q(),
        ),
{
    lemma_constants();
    let ri = r_inv();
    lemma_mul_mod_noop_left((x * y) * ri, ri, q());
    assert(((x * y) * ri) * ri == (x * ri) * (y * ri)) by (nonlinear_arith);
    lemma_mul_mod_noop_general(x * ri, y * ri, q());
}

/// The Montgomery product with `R^2` stands for the number itself.
proof fn lemma_view_lift(v: int)
    ensures
        (mont_reduce(v * ((radix() * radix()) % q()), q()) * r_inv()) % q() == v % q(),
{
    lemma_constants();
    let ri = r_inv();
    let m = radix();
    lemma_mul_mod_noop_right(v, m * m, q());
    lemma_mul_mod_noop_left(v * ((m * m) % q()), ri, q());
    lemma_mul_mod_noop_left(v * (m * m), ri, q());
    lemma_mul_mod_noop_left((v * (m * m)) * ri, ri, q());
    assert(((v * (m * m)) * ri) * ri == (v * (m * ri)) * (m * ri)) by (nonlinear_arith);
    lemma_radix_cancels(v * (m * ri), q());
    lemma_radix_cancels(v, q());
}

} // verus!
