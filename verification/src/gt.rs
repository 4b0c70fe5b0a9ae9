//! The target group of the pairing: the subgroup of order `r` of the units of
//! Fq12, written additively.

use crate::fq12::Fq12;
use crate::model::dodecic::Fq12Value;
use vstd::prelude::*;

verus! {

/// An element of the target group, as the final exponentiation gives it.
#[derive(Clone, Copy, Debug)]
pub struct Gt(pub Fq12);

impl View for Gt {
    type V = Fq12Value;

    open spec fn view(&self) -> Fq12Value {
        self.0@
    }
}

impl PartialEq for Gt {
    fn eq(&self, other: &Self) -> (r: bool) {
        self.0 == other.0
    }
}

impl vstd::std_specs::cmp::PartialEqSpecImpl for Gt {
    open spec fn obeys_eq_spec() -> bool {
        true
    }

    open spec fn eq_spec(&self, other: &Self) -> bool {
        self.0.same(&other.0)
    }
}

impl Eq for Gt {

}

impl Gt {
    /// The element of Fq12 is reduced.
    pub open spec fn wf(&self) -> bool {
        self.0.wf()
    }

    /// The neutral element: one in Fq12.
    pub fn identity() -> (r: Self)
        ensures
            r.wf(),
            r@ == Fq12Value::one(),
    {
        Self(Fq12::one())
    }

    /// The value of the pairing at the generators of G1 and G2.
    pub fn generator() -> (r: Self)
        ensures
            r.wf(),
            r@ == Fq12::generator_value(),
    {
        Self(Fq12::generator())
    }

    /// The sum in the group, which is the product in Fq12.
    pub fn add(self, rhs: Gt) -> (r: Gt)
        requires
            self.wf(),
            rhs.wf(),
        ensures
            r.wf(),
            r@ == self@.mul(rhs@),
    {
        Self(self.0.mul(rhs.0))
    }

    /// The opposite in the group, which is the conjugate in Fq12.
    pub fn neg(self) -> (r: Gt)
        requires
            self.wf(),
        ensures
            r.wf(),
            r@ == self@.conjugate(),
    {
        Gt(self.0.conjugate())
    }
}

} // verus!
