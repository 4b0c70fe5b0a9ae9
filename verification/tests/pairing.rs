use bn254::fq12::Fq12;
use bn254::g1::G1Affine;
use bn254::g2::{G2Affine, G2PairingAffine};
use bn254::gt::Gt;
use bn254::pairing::AteParing;

#[test]
fn generator_pairing() {
    let p = G1Affine::generator();
    let q = G2PairingAffine::from(G2Affine::generator());
    let pairs = [(p, q)];
    assert_eq!(AteParing::multi_miller_loop(&pairs).final_exp(), Gt::generator());
}

#[test]
fn empty_pairing() {
    assert_eq!(AteParing::multi_miller_loop(&[]).final_exp(), Gt::identity());
}

#[test]
fn pairings_cancel() {
    let p = G1Affine::generator();
    let neg_p = p.neg();
    let pairs = [
        (p, G2PairingAffine::from(G2Affine::generator())),
        (neg_p, G2PairingAffine::from(G2Affine::generator())),
    ];
    assert_eq!(AteParing::multi_miller_loop(&pairs).final_exp(), Gt::identity());
}

#[test]
fn final_exp_of_one() {
    assert_eq!(Fq12::one().final_exp(), Gt::identity());
}

#[test]
fn generator_plus_its_opposite() {
    assert_eq!(Gt::generator().add(Gt::generator().neg()), Gt::identity());
}

fn pairing(p: G1Affine, q: G2Affine) -> Gt {
    AteParing::multi_miller_loop(&[(p, G2PairingAffine::from(q))]).final_exp()
}

fn g1_double(p: G1Affine) -> G1Affine {
    let three = bn254::fq::Fq::to_mont_form([3, 0, 0, 0]);
    let l = three.mul(p.x.square()).mul(p.y.double().invert().unwrap());
    let x = l.square().sub(p.x.double());
    let y = l.mul(p.x.sub(x)).sub(p.y);
    G1Affine::new(x, y)
}

fn g1_add(p: G1Affine, r: G1Affine) -> G1Affine {
    let l = r.y.sub(p.y).mul(r.x.sub(p.x).invert().unwrap());
    let x = l.square().sub(p.x).sub(r.x);
    let y = l.mul(p.x.sub(x)).sub(p.y);
    G1Affine::new(x, y)
}

fn g2_double(p: G2Affine) -> G2Affine {
    let l = p.x.square().double().add(p.x.square()).mul(p.y.double().invert().unwrap());
    let x = l.square().sub(p.x.double());
    let y = l.mul(p.x.sub(x)).sub(p.y);
    G2Affine::new(x, y)
}

fn g2_add(p: G2Affine, r: G2Affine) -> G2Affine {
    let l = r.y.sub(p.y).mul(r.x.sub(p.x).invert().unwrap());
    let x = l.square().sub(p.x).sub(r.x);
    let y = l.mul(p.x.sub(x)).sub(p.y);
    G2Affine::new(x, y)
}

#[test]
fn generators() {
    let p = G1Affine::generator();
    assert_eq!(p.x.from_mont_form(), [1, 0, 0, 0]);
    assert_eq!(p.y.from_mont_form(), [2, 0, 0, 0]);
    assert!(!p.is_identity());
    assert!(G1Affine::identity().is_identity());
    let q = G2Affine::generator();
    assert!(!q.is_identity());
    assert!(G2Affine::identity().is_identity());
    // the generator of G2 lies on the twist y^2 = x^3 + 3 / (9 + u)
    let b = bn254::fq2::Fq2([
        bn254::fq::Fq::to_mont_form([9, 0, 0, 0]),
        bn254::fq::Fq::to_mont_form([1, 0, 0, 0]),
    ])
    .invert()
    .unwrap();
    let b = b.double().add(b);
    assert_eq!(q.y.square(), q.x.square().mul(q.x).add(b));
}

#[test]
fn opposite_points() {
    let p = G1Affine::generator();
    let n = p.neg();
    assert_eq!(n.x, p.x);
    assert_eq!(n.y.add(p.y), bn254::fq::Fq::zero());
    assert!(!n.is_identity());
    assert!(G1Affine::identity().neg().is_identity());
    let q = G2Affine::generator();
    let m = q.neg();
    assert_eq!(m.x, q.x);
    assert_eq!(m.y.add(q.y), bn254::fq2::Fq2::zero());
}

#[test]
fn lines_of_a_point() {
    let q = G2PairingAffine::from(G2Affine::generator());
    assert!(!q.is_identity());
    assert_eq!(q.coeffs.len(), 91);
    let c = q.coeffs[0];
    assert_eq!(
        c.0 .0[0].0,
        [0xd21646319838b003, 0x337b0aab9d250e39, 0xd587986507e9eee3, 0x12c9105616e4279e]
    );
    assert_eq!(
        c.1 .0[1].0,
        [0x440975014a518340, 0x0d5a9c2cd755ee15, 0x811a902528ef2002, 0x037bebd49acd09c3]
    );
    assert_eq!(
        c.2 .0[0].0,
        [0x5dfc6533be84a768, 0x7279074ef53ba5af, 0x8f7dbb83a847531b, 0x22ec1deffd00acd3]
    );
    let c = q.coeffs[90];
    assert_eq!(
        c.0 .0[0].0,
        [0xd8c08faa30ae855d, 0xe96d2abce076bfe7, 0x0b29b8f40fa7f51e, 0x195fa2712b9d2aa0]
    );
    assert_eq!(
        c.2 .0[1].0,
        [0xbbcb92cc4d3f1261, 0x7d2a5b85f4f90a77, 0x166ff536cf6fb997, 0x1beaebb11b0f0ad3]
    );
    let o = G2PairingAffine::from(G2Affine::identity());
    assert!(o.is_identity());
    assert_eq!(o.coeffs.len(), 0);
}

#[test]
fn projective_points() {
    let p = bn254::g2::G2Projective::from(G2Affine::generator());
    assert_eq!(p.x, G2Affine::generator().x);
    assert_eq!(p.z, bn254::fq2::Fq2::one());
    let o = bn254::g2::G2Projective::from(G2Affine::identity());
    assert_eq!(o.x, bn254::fq2::Fq2::zero());
    assert_eq!(o.y, bn254::fq2::Fq2::one());
    assert_eq!(o.z, bn254::fq2::Fq2::zero());
    // doubling and adding agree with the affine formulas
    let mut r = bn254::g2::G2Projective::from(G2Affine::generator());
    r.double_eval();
    let d = g2_double(G2Affine::generator());
    let z2 = r.z.square();
    assert_eq!(d.x.mul(z2), r.x);
    assert_eq!(d.y.mul(z2).mul(r.z), r.y);
    r.add_eval(G2Affine::generator());
    let t = g2_add(d, G2Affine::generator());
    let z2 = r.z.square();
    assert_eq!(t.x.mul(z2), r.x);
    assert_eq!(t.y.mul(z2).mul(r.z), r.y);
}

#[test]
fn miller_loop_value() {
    let f = AteParing::multi_miller_loop(&[(
        G1Affine::generator(),
        G2PairingAffine::from(G2Affine::generator()),
    )]);
    assert_eq!(
        f.0[0].0[0].0[0].0,
        [0xe6a1c32c6ac34df7, 0xdfd7b22e6b8af5d0, 0x29a759b09af4c5d0, 0x259ef18c4395c9ca]
    );
    assert_eq!(
        f.0[1].0[2].0[1].0,
        [0x0d7666c35886df8a, 0x9496f43e6c7f3919, 0xe02f4d6f9072d25d, 0x074a8e55ac79825c]
    );
    assert_eq!(AteParing::multi_miller_loop(&[]), Fq12::one());
}

#[test]
fn pairing_is_bilinear() {
    let p = G1Affine::generator();
    let q = G2Affine::generator();
    let e = pairing(p, q);
    let pb = g1_double(p);
    let q2 = g2_double(q);
    assert_eq!(pairing(pb, q), e.add(e));
    assert_eq!(pairing(p, q2), e.add(e));
    let pc = g1_add(pb, p);
    let q3 = g2_add(q2, q);
    assert_eq!(pairing(pc, q), e.add(e).add(e));
    assert_eq!(pairing(p, q3), e.add(e).add(e));
    assert_eq!(pairing(pb, q3), pairing(pc, q2));
    assert_ne!(e.add(e), e);
}

#[test]
fn pairing_with_the_point_at_infinity() {
    let p = g1_double(G1Affine::generator());
    let q = G2Affine::generator();
    assert_eq!(pairing(p, G2Affine::identity()), Gt::identity());
    assert_eq!(pairing(G1Affine::identity(), q), Gt::identity());
    assert_eq!(pairing(G1Affine::identity(), G2Affine::identity()), Gt::identity());
    // a pair with a point at infinity drops out of a list
    let pairs = [
        (G1Affine::identity(), G2PairingAffine::from(q)),
        (p, G2PairingAffine::from(q)),
        (p, G2PairingAffine::from(G2Affine::identity())),
    ];
    assert_eq!(AteParing::multi_miller_loop(&pairs).final_exp(), pairing(p, q));
}

#[test]
fn pairing_of_two_pairs_is_the_sum() {
    let pa = G1Affine::generator();
    let q1 = g2_double(G2Affine::generator());
    let pb = g1_add(g1_double(pa), pa);
    let q2 = G2Affine::generator();
    let pairs = [(pa, G2PairingAffine::from(q1)), (pb, G2PairingAffine::from(q2))];
    assert_eq!(
        AteParing::multi_miller_loop(&pairs).final_exp(),
        pairing(pa, q1).add(pairing(pb, q2))
    );
    // the lines of a point serve for more than one point of G1
    let lines = G2PairingAffine::from(q2);
    assert_eq!(
        AteParing::multi_miller_loop(&[(pb, lines)]).final_exp(),
        pairing(pb, q2)
    );
}

#[test]
fn target_group() {
    let g = Gt::generator();
    assert_eq!(g.add(Gt::identity()), g);
    assert_eq!(g.neg().neg(), g);
    assert_eq!(Gt::identity().neg(), Gt::identity());
    assert_ne!(g, Gt::identity());
    assert_eq!(g.0, Fq12::generator());
    assert_eq!(
        g.0 .0[0].0[0].0[0].0,
        [0xc556f62b2a98671d, 0x23a59ac167bcf363, 0x5ef208445f5f6f37, 0x12adf27ccb29382a]
    );
}

#[test]
fn untwist_scales_the_line() {
    let q = G2PairingAffine::from(G2Affine::generator());
    let p = g1_double(G1Affine::generator());
    let c = q.coeffs[3];
    let f = Gt::generator().0;
    let c0 = bn254::fq2::Fq2([c.0 .0[0].mul(p.y), c.0 .0[1].mul(p.y)]);
    let c3 = bn254::fq2::Fq2([c.1 .0[0].mul(p.x), c.1 .0[1].mul(p.x)]);
    assert_eq!(f.untwist(c, p), f.mul_by_034(c0, c3, c.2));
}

#[test]
fn pairing_at_the_opposite_point() {
    let p = g1_add(g1_double(G1Affine::generator()), G1Affine::generator());
    let q = g2_double(G2Affine::generator());
    let e = pairing(p, q);
    assert_eq!(pairing(p.neg(), q), e.neg());
    assert_eq!(pairing(p, q.neg()), e.neg());
    assert_eq!(e.add(pairing(p.neg(), q)), Gt::identity());
    let pairs = [(p, G2PairingAffine::from(q)), (p.neg(), G2PairingAffine::from(q))];
    assert_eq!(AteParing::multi_miller_loop(&pairs).final_exp(), Gt::identity());
    // the value of the Miller loop changes its sign and is conjugated
    let f = AteParing::multi_miller_loop(&[(p, G2PairingAffine::from(q))]);
    let g = AteParing::multi_miller_loop(&[(p.neg(), G2PairingAffine::from(q))]);
    let minus_one = Fq12([bn254::fq6::Fq6::one().neg(), bn254::fq6::Fq6::zero()]);
    assert_eq!(g, minus_one.mul(f.conjugate()));
}

#[test]
fn tangent_and_chord_coefficients() {
    let g = G2Affine::generator();
    let mut r = bn254::g2::G2Projective::from(g);
    r.double_eval();
    // the tangent at a point with coordinates X, Y, Z
    let (x, y, z) = (r.x, r.y, r.z);
    let c = r.double_eval();
    let zz = z.square();
    let four_yz3 = y.mul(zz.mul(z)).double().double();
    let x2z2 = x.square().mul(zz);
    let six_x2z2 = x2z2.double().add(x2z2).double();
    let x3 = x.square().mul(x);
    let six_x3 = x3.double().add(x3).double();
    assert_eq!(c.0, four_yz3);
    assert_eq!(c.1, six_x2z2.neg());
    assert_eq!(c.2, six_x3.sub(y.square().double().double()));
    assert_eq!(r.z, y.mul(z).double());
    // the chord through that double and the generator
    let (x, y, z) = (r.x, r.y, r.z);
    let c = r.add_eval(g);
    let zz = z.square();
    let h = zz.mul(g.x).sub(x);
    let s = g.y.mul(zz.mul(z)).sub(y).double();
    assert_eq!(r.z, z.mul(h).double());
    assert_eq!(c.0, z.mul(h).double().double());
    assert_eq!(c.1, s.double().neg());
    assert_eq!(c.2, s.mul(g.x).sub(g.y.mul(r.z)).double());
    let hh = h.square();
    let four_h3 = hh.mul(h).double().double();
    let eight_xh2 = x.mul(hh).double().double().double();
    assert_eq!(r.x, s.square().sub(four_h3).sub(eight_xh2));
}
