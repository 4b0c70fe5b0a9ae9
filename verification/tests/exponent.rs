use bn254::fq::Fq;
use bn254::fq12::Fq12;
use bn254::fq2::Fq2;
use bn254::fq6::Fq6;
use bn254::g1::G1Affine;
use bn254::g2::{G2Affine, G2PairingAffine, PairingCoeff};
use bn254::gt::Gt;
use bn254::pairing::AteParing;

/// `(q^12 - 1) / r`, least significant limb first.
const FINAL_EXPONENT: [u64; 44] = [
    0x86964b64ca86f120, 0x40a4efb7e54523a4, 0x837fa97896e84abb, 0x361102b6b9b2b918,
    0xc0de81def35692da, 0xbe04c7e8a6c3c760, 0xd766f9c9d570bb7f, 0xc230974d83561841,
    0x5bba1668c3be69a3, 0x7f3811c410526294, 0x29baee7ddadda71c, 0xbf813b8d145da900,
    0x641bbadf423f9a2c, 0xa80bb4ea44eacc5e, 0xcd65664814fde37c, 0x4a0364b9580291d2,
    0xee93dfb10826f0dd, 0x6b42db8dc5514724, 0xbb10cf430b0f3785, 0x40494e406f804216,
    0x55cfe107acf3aafb, 0x2088ec80e0ebae87, 0x846a3ed011a337a0, 0x48a45a4a1e3a5195,
    0xe5664568dfc50e16, 0xab6a41294c0cc4eb, 0x82d0d602d268c7da, 0x6668449aed3cc48a,
    0x5062cd0fb2015dfc, 0x7f2940a8b1ddb3d1, 0x77f5b63a2a226448, 0xfef0781361e443ae,
    0xf977870e88d5c6c8, 0x790364a61f676baa, 0x5887e72eceaddea3, 0x1377e563a09a1b70,
    0x0c54efee1bd8c3b2, 0x3ec3d15ad524d8f7, 0xdaf15466b2383a5d, 0xe1e30a73bb94fec0,
    0x6a1c71015f3f7be2, 0x842d43bf6369b1ff, 0x20fddadf107d20bc, 0x0000002f4b6dc970,
];

/// The order `r` of the groups, least significant limb first.
const ORDER: [u64; 4] = [0x43e1f593f0000001, 0x2833e84879b97091, 0xb85045b68181585d, 0x30644e72e131a029];

fn power(x: Fq12, e: &[u64]) -> Fq12 {
    let mut r = Fq12::one();
    for i in (0..64 * e.len()).rev() {
        r = r.square();
        if (e[i / 64] >> (i % 64)) & 1 == 1 {
            r = r.mul(x);
        }
    }
    r
}

fn fq(n: u64) -> Fq {
    Fq::to_mont_form([n, 0, 0, 0])
}

fn element() -> Fq12 {
    Fq12([
        Fq6([Fq2([fq(1), fq(2)]), Fq2([fq(3), fq(4)]), Fq2([fq(5), fq(6)])]),
        Fq6([Fq2([fq(17), fq(18)]), Fq2([fq(15), fq(16)]), Fq2([fq(13), fq(14)])]),
    ])
}

#[test]
fn final_exp_is_the_power_by_the_cofactor() {
    let f = element();
    assert_eq!(f.final_exp().0, power(f, &FINAL_EXPONENT));
    let m = AteParing::multi_miller_loop(&[(
        G1Affine::generator(),
        G2PairingAffine::from(G2Affine::generator()),
    )]);
    assert_eq!(m.final_exp().0, power(m, &FINAL_EXPONENT));
}

#[test]
fn final_exp_lands_in_the_subgroup_of_order_r() {
    assert_eq!(power(Gt::generator().0, &ORDER), Fq12::one());
    assert_eq!(power(element().final_exp().0, &ORDER), Fq12::one());
    assert_ne!(power(element(), &ORDER), Fq12::one());
}

#[test]
fn final_exp_goes_through_products() {
    let f = element();
    let g = f.square().mul(Gt::generator().0).add(f);
    assert_eq!(f.mul(g).final_exp(), f.final_exp().add(g.final_exp()));
}

#[test]
fn pairing_of_a_pair_without_inverse_is_no_sum() {
    // lines that are all zero make the value of the Miller loop zero, which
    // has no inverse: the pairing with such a pair is the neutral element,
    // whatever the other pairs are
    let zero = PairingCoeff(Fq2::zero(), Fq2::zero(), Fq2::zero());
    let degenerate = G2PairingAffine { coeffs: vec![zero; 91], is_infinity: false };
    let p = G1Affine::generator();
    let one = [(p, degenerate)];
    let alone = AteParing::multi_miller_loop(&one).final_exp();
    assert_eq!(alone, Gt::identity());
    let degenerate = G2PairingAffine { coeffs: vec![zero; 91], is_infinity: false };
    let both = [(p, degenerate), (p, G2PairingAffine::from(G2Affine::generator()))];
    assert_eq!(AteParing::multi_miller_loop(&both).final_exp(), Gt::identity());
    assert_ne!(alone.add(Gt::generator()), Gt::identity());
}

#[test]
fn easy_part_lands_in_the_cyclotomic_subgroup() {
    let f = element();
    let g = f.invert().unwrap().mul(f.conjugate());
    let r = g.frobenius_maps(2).mul(g);
    assert_eq!(r.frobenius_maps(4).mul(r), r.frobenius_maps(2));
    assert_eq!(r.conjugate().mul(r), Fq12::one());
    assert_ne!(f.frobenius_maps(4).mul(f), f.frobenius_maps(2));
}
