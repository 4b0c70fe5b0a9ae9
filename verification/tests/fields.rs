use bn254::fq::{Fq, MODULUS};
use bn254::fq12::{cyclotomic_exp, cyclotomic_square, Fq12};
use bn254::fq2::Fq2;
use bn254::fq6::Fq6;
use bn254::gt::Gt;

fn fq(n: i64) -> Fq {
    let x = Fq::to_mont_form([n.unsigned_abs(), 0, 0, 0]);
    if n < 0 {
        x.neg()
    } else {
        x
    }
}

fn fq2(a: i64, b: i64) -> Fq2 {
    Fq2([fq(a), fq(b)])
}

fn fq6(c: [(i64, i64); 3]) -> Fq6 {
    Fq6([fq2(c[0].0, c[0].1), fq2(c[1].0, c[1].1), fq2(c[2].0, c[2].1)])
}

fn fq12(a: [(i64, i64); 3], b: [(i64, i64); 3]) -> Fq12 {
    Fq12([fq6(a), fq6(b)])
}

const A6: [(i64, i64); 3] = [(1, 2), (3, 4), (5, 6)];
const B6: [(i64, i64); 3] = [(7, 8), (9, 10), (11, 12)];
const C6: [(i64, i64); 3] = [(-13, 14), (15, -16), (17, 18)];

const BIG: [u64; 4] = [
    0x1122334455667788,
    0x0f1e2d3c4b5a6978,
    0xfedcba0987654321,
    0x1234567890abcdef,
];

fn fq2_pow_q(x: Fq2) -> Fq2 {
    let mut r = Fq2::one();
    for i in (0..256).rev() {
        r = r.square();
        if (MODULUS[i / 64] >> (i % 64)) & 1 == 1 {
            r = r.mul(x);
        }
    }
    r
}

fn fq6_pow_q(x: Fq6) -> Fq6 {
    let mut r = Fq6::one();
    for i in (0..256).rev() {
        r = r.square();
        if (MODULUS[i / 64] >> (i % 64)) & 1 == 1 {
            r = r.mul(x);
        }
    }
    r
}

fn fq12_pow_q(x: Fq12) -> Fq12 {
    let mut r = Fq12::one();
    for i in (0..256).rev() {
        r = r.square();
        if (MODULUS[i / 64] >> (i % 64)) & 1 == 1 {
            r = r.mul(x);
        }
    }
    r
}

#[test]
fn fq_small_numbers() {
    assert_eq!(fq(5).add(fq(7)), fq(12));
    assert_eq!(fq(5).sub(fq(7)), fq(-2));
    assert_eq!(fq(5).mul(fq(7)), fq(35));
    assert_eq!(fq(5).neg(), fq(-5));
    assert_eq!(fq(5).double(), fq(10));
    assert_eq!(fq(5).square(), fq(25));
    assert_eq!(fq(1), Fq::one());
    assert_eq!(fq(0), Fq::zero());
}

#[test]
fn fq_element_and_opposite_add_to_zero() {
    let a = Fq::to_mont_form(BIG);
    assert_eq!(a.add(a.neg()), Fq::zero());
    assert_eq!(Fq::zero().neg(), Fq::zero());
    assert!(a.add(a.neg()).is_zero());
    assert!(!a.is_zero());
}

#[test]
fn fq_element_times_inverse_is_one() {
    let a = Fq::to_mont_form(BIG);
    assert_eq!(a.mul(a.invert().unwrap()), Fq::one());
    assert_eq!(
        fq(5).invert().unwrap().from_mont_form(),
        [0x24138740e84afe5e, 0xc14da6573eaaacbb, 0x6e96903a4db401d1, 0x1d08fbde871dc67f]
    );
    assert_eq!(Fq::one().invert(), Some(Fq::one()));
}

#[test]
fn fq_square_is_product_and_double_is_sum() {
    let a = Fq::to_mont_form(BIG);
    assert_eq!(a.square(), a.mul(a));
    assert_eq!(a.double(), a.add(a));
    let c = Fq([7, (1 << 63) + 5, u64::MAX, 1]);
    assert_eq!(c.square(), c.mul(c));
}

#[test]
fn fq_inverse_of_zero() {
    assert_eq!(Fq::zero().invert(), None);
}

#[test]
fn fq_montgomery_round_trip() {
    assert_eq!(Fq::to_mont_form(BIG).from_mont_form(), BIG);
    assert_eq!(Fq::to_mont_form([2, 0, 0, 0]).from_mont_form(), [2, 0, 0, 0]);
    assert_eq!(
        Fq::to_mont_form(BIG).0,
        [0x0d52741f21920cba, 0xc06ceb2fba603e08, 0x878b6acba200acf6, 0x2357e8deb685c4df]
    );
    // a number that is not below the modulus is reduced
    assert_eq!(Fq::to_mont_form(MODULUS), Fq::zero());
    assert_eq!(Fq::to_mont_form([u64::MAX; 4]).from_mont_form(), {
        // 2^256 - 1 - 5q
        [0xd35d438dc58f0d9c, 0x0a78eb28f5c70b3d, 0x666ea36f7879462c, 0x0e0a77c19a07df2f]
    });
}

#[test]
fn fq2_product_and_nonresidue() {
    assert_eq!(fq2(3, 4).mul(fq2(5, 6)), fq2(-9, 38));
    assert_eq!(fq2(3, 4).mul_by_nonres(), fq2(23, 39));
    assert_eq!(fq2(3, 4).mul_by_nonres(), fq2(3, 4).mul(fq2(9, 1)));
    assert_eq!(fq2(3, 4).square(), fq2(-7, 24));
    assert_eq!(fq2(3, 4).double(), fq2(6, 8));
    assert_eq!(fq2(3, 4).add(fq2(5, 6)), fq2(8, 10));
    assert_eq!(fq2(3, 4).sub(fq2(5, 7)), fq2(-2, -3));
    assert_eq!(fq2(3, 4).neg(), fq2(-3, -4));
    assert_eq!(fq2(3, 4).conjugate(), fq2(3, -4));
    assert_eq!(fq2(0, 1).square(), fq2(-1, 0));
}

#[test]
fn fq2_inverse() {
    let x = fq2(3, 4);
    let i = x.invert().unwrap();
    assert_eq!(x.mul(i), Fq2::one());
    assert_eq!(
        i.0[0].from_mont_form(),
        [0x48d8845a24f9cbd2, 0x40c8309abf333470, 0xa8c0bcefc838cde4, 0x116bca525111dd7f]
    );
    assert_eq!(
        i.0[1].from_mont_form(),
        [0x85aa864951da982f, 0x96767f186982d9f7, 0x2ca49f21768af082, 0x1929eb5a7519ce2a]
    );
    assert_eq!(Fq2::zero().invert(), None);
    assert!(Fq2::zero().is_zero());
    assert!(!fq2(0, 1).is_zero());
}

#[test]
fn fq2_distributes() {
    let (a, b, c) = (fq2(3, -4), Fq2([Fq::to_mont_form(BIG), fq(9)]), fq2(-5, 6));
    assert_eq!(a.add(b).mul(c), a.mul(c).add(b.mul(c)));
}

#[test]
fn fq2_frobenius_is_the_power_by_q() {
    let x = Fq2([Fq::to_mont_form(BIG), fq(9)]);
    let xq = fq2_pow_q(x);
    assert_eq!(x.frobenius_map(), xq);
    assert_eq!(x.frobenius_maps(1), xq);
    assert_eq!(x.frobenius_maps(2), fq2_pow_q(xq));
    assert_eq!(x.frobenius_maps(2), x);
    assert_eq!(x.frobenius_maps(3), xq);
    assert_eq!(x.frobenius_maps(6), x);
    assert_eq!(x.frobenius_maps(1), x.conjugate());
}

#[test]
fn fq6_product() {
    assert_eq!(fq6(A6).mul(fq6(B6)), fq6([(-463, 1648), (-301, 1197), (-39, 182)]));
    assert_eq!(fq6(A6).square(), fq6([(-241, 670), (-169, 549), (-21, 56)]));
    assert_eq!(fq6(A6).square(), fq6(A6).mul(fq6(A6)));
    assert_eq!(fq6(A6).mul_by_nonres(), fq6([(39, 59), (1, 2), (3, 4)]));
    assert_eq!(fq6(A6).mul_by_nonres(), fq6(A6).mul(fq6([(0, 0), (1, 0), (0, 0)])));
    assert_eq!(fq6(A6).double(), fq6(A6).add(fq6(A6)));
    assert_eq!(fq6(A6).sub(fq6(B6)), fq6([(-6, -6), (-6, -6), (-6, -6)]));
    assert_eq!(fq6(A6).neg(), fq6([(-1, -2), (-3, -4), (-5, -6)]));
    assert_eq!(fq6(A6).mul(Fq6::one()), fq6(A6));
    assert_eq!(fq6(A6).mul(Fq6::zero()), Fq6::zero());
}

#[test]
fn fq6_sparse_product() {
    let x = fq6(C6);
    assert_eq!(
        x.mul_by_01(fq2(3, 4), fq2(-5, 6)),
        x.mul(fq6([(3, 4), (-5, 6), (0, 0)]))
    );
}

#[test]
fn fq6_inverse() {
    let x = fq6(C6);
    assert_eq!(x.mul(x.invert().unwrap()), Fq6::one());
    assert_eq!(Fq6::zero().invert(), None);
    assert_eq!(Fq6::one().invert(), Some(Fq6::one()));
}

#[test]
fn fq6_distributes() {
    let (a, b, c) = (fq6(A6), fq6(B6), fq6(C6));
    assert_eq!(a.add(b).mul(c), a.mul(c).add(b.mul(c)));
}

#[test]
fn fq6_frobenius_is_the_power_by_q() {
    let x = fq6(C6);
    let x1 = fq6_pow_q(x);
    let x2 = fq6_pow_q(x1);
    let x3 = fq6_pow_q(x2);
    assert_eq!(x.frobenius_map(), x1);
    assert_eq!(x.frobenius_maps(1), x1);
    assert_eq!(x.frobenius_maps(2), x2);
    assert_eq!(x.frobenius_maps(3), x3);
    assert_eq!(x.frobenius_maps(6), fq6_pow_q(fq6_pow_q(fq6_pow_q(x3))));
    assert_eq!(x.frobenius_maps(6), x);
}

#[test]
fn fq12_product() {
    let x = fq12(A6, B6);
    let y = fq12(B6, A6);
    assert_eq!(
        x.mul(y),
        fq12(
            [(-996, 3247), (-764, 2845), (-340, 1379)],
            [(-1070, 4664), (-674, 3186), (-78, 580)]
        )
    );
    assert_eq!(
        x.square(),
        fq12(
            [(-1278, 5329), (-998, 4543), (-526, 2693)],
            [(-926, 3296), (-602, 2394), (-78, 364)]
        )
    );
    assert_eq!(x.square(), x.mul(x));
    assert_eq!(x.mul(Fq12::one()), x);
    assert_eq!(x.conjugate(), fq12(A6, [(-7, -8), (-9, -10), (-11, -12)]));
    let mut z = x;
    z.square_assign();
    assert_eq!(z, x.square());
    let mut z = x;
    z.mul_assign(y);
    assert_eq!(z, x.mul(y));
}

#[test]
fn fq12_sparse_product() {
    let x = fq12(A6, B6);
    assert_eq!(
        x.mul_by_034(fq2(1, 2), fq2(3, 4), fq2(5, 6)),
        fq12(
            [(-457, 1630), (-295, 1179), (-33, 164)],
            [(-173, 561), (-25, 68), (-31, 110)]
        )
    );
    assert_eq!(
        x.mul_by_034(fq2(1, 2), fq2(3, 4), fq2(5, 6)),
        x.mul(fq12([(1, 2), (0, 0), (0, 0)], [(3, 4), (5, 6), (0, 0)]))
    );
}

#[test]
fn fq12_inverse() {
    let x = fq12(A6, C6);
    assert_eq!(x.mul(x.invert().unwrap()), Fq12::one());
    assert_eq!(fq12([(0, 0); 3], [(0, 0); 3]).invert(), None);
    assert_eq!(Fq12::one().invert(), Some(Fq12::one()));
}

#[test]
fn fq12_distributes() {
    let (a, b, c) = (fq12(A6, B6), fq12(B6, C6), fq12(C6, A6));
    assert_eq!(a.add(b).mul(c), a.mul(c).add(b.mul(c)));
}

#[test]
fn fq12_frobenius_is_the_power_by_q() {
    let x = fq12(A6, C6);
    let x1 = fq12_pow_q(x);
    let x2 = fq12_pow_q(x1);
    let x3 = fq12_pow_q(x2);
    let x6 = fq12_pow_q(fq12_pow_q(fq12_pow_q(x3)));
    assert_eq!(x.frobenius_map(), x1);
    assert_eq!(x.frobenius_maps(1), x1);
    assert_eq!(x.frobenius_maps(2), x2);
    assert_eq!(x.frobenius_maps(3), x3);
    assert_eq!(x.frobenius_maps(6), x6);
    assert_eq!(x.frobenius_maps(6), x.conjugate());
    assert_eq!(x.frobenius_maps(12), x);
}

#[test]
fn cyclotomic_square_is_the_square_on_the_subgroup() {
    // the generator of the target group lies in the cyclotomic subgroup
    let g = Gt::generator().0;
    assert_eq!(cyclotomic_square(g), g.mul(g));
    // so does what the easy part of the exponentiation makes of an element
    let f = fq12(A6, C6);
    let f2 = f.invert().unwrap().mul(f.conjugate());
    let r = f2.frobenius_maps(2).mul(f2);
    assert_eq!(cyclotomic_square(r), r.square());
    assert_eq!(cyclotomic_square(Fq12::one()), Fq12::one());
    // and not elsewhere
    assert_ne!(cyclotomic_square(f), f.square());
}

#[test]
fn cyclotomic_exp_is_the_power_by_u() {
    let g = Gt::generator().0;
    let u: u64 = 0x44e992b44a6909f1;
    let mut r = Fq12::one();
    for i in (0..64).rev() {
        r = r.square();
        if (u >> i) & 1 == 1 {
            r = r.mul(g);
        }
    }
    assert_eq!(cyclotomic_exp(g), r);
    assert_eq!(cyclotomic_exp(Fq12::one()), Fq12::one());
}

#[test]
fn final_exp_of_an_element_without_inverse() {
    let zero = fq12([(0, 0); 3], [(0, 0); 3]);
    assert_eq!(zero.final_exp(), Gt::identity());
}
