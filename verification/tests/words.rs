use bn254::fq::{INV, MODULUS, R, R2};
use bn254::limbs;
use bn254::math::{adb, adc, mac, sba, sbb};

const A: [u64; 4] = [
    0x1122334455667788,
    0x0f1e2d3c4b5a6978,
    0xfedcba0987654321,
    0x1234567890abcdef,
];
const B: [u64; 4] = [
    0xd34bab373157aa84,
    0x3511ed44fd0d8598,
    0x67e42a0bc2ced972,
    0x2b8f1d5dfd20c55b,
];
const Q_MINUS_1: [u64; 4] = [
    0x3c208c16d87cfd46,
    0x97816a916871ca8d,
    0xb85045b68181585d,
    0x30644e72e131a029,
];
const Q_MINUS_2: [u64; 4] = [
    0x3c208c16d87cfd45,
    0x97816a916871ca8d,
    0xb85045b68181585d,
    0x30644e72e131a029,
];

#[test]
fn adb_carries() {
    assert_eq!(adb(1, 2), (3, 0));
    assert_eq!(adb(u64::MAX, 1), (0, 1));
    assert_eq!(adb(u64::MAX, u64::MAX), (u64::MAX - 1, 1));
}

#[test]
fn adc_carries() {
    assert_eq!(adc(1, 2, 1), (4, 0));
    assert_eq!(adc(u64::MAX, 0, 1), (0, 1));
    assert_eq!(adc(u64::MAX, u64::MAX, u64::MAX), (u64::MAX - 2, 2));
}

#[test]
fn sba_borrows_as_mask() {
    assert_eq!(sba(5, 3), (2, 0));
    assert_eq!(sba(3, 5), (u64::MAX - 1, u64::MAX));
    assert_eq!(sba(0, 0), (0, 0));
}

#[test]
fn sbb_reads_the_top_bit_of_the_borrow() {
    assert_eq!(sbb(5, 3, 0), (2, 0));
    assert_eq!(sbb(5, 3, u64::MAX), (1, 0));
    assert_eq!(sbb(3, 3, u64::MAX), (u64::MAX, u64::MAX));
    // a borrow word without the top bit counts as no borrow
    assert_eq!(sbb(5, 3, 1), (2, 0));
    assert_eq!(sbb(0, u64::MAX, 1 << 63), (0, u64::MAX));
}

#[test]
fn mac_widens() {
    assert_eq!(mac(1, 2, 3, 4), (11, 0));
    assert_eq!(mac(u64::MAX, u64::MAX, u64::MAX, u64::MAX), (u64::MAX, u64::MAX));
    assert_eq!(mac(0, 1 << 32, 1 << 32, 0), (0, 1));
}

#[test]
fn limbs_add_reduces() {
    assert_eq!(
        limbs::add(A, B, MODULUS),
        [0xa84d5264ae4124c5, 0xacaeafefdff62483, 0xae709e5ec8b2c435, 0x0d5f2563ac9af321]
    );
    assert_eq!(limbs::add(Q_MINUS_1, [1, 0, 0, 0], MODULUS), [0, 0, 0, 0]);
    assert_eq!(limbs::add([1, 0, 0, 0], [2, 0, 0, 0], MODULUS), [3, 0, 0, 0]);
}

#[test]
fn limbs_sub_adds_the_modulus_back() {
    assert_eq!(
        limbs::sub(A, B, MODULUS),
        [0x79f71423fc8bca4b, 0x718daa88b6beae6c, 0x4f48d5b44617c20c, 0x1709878d74bca8be]
    );
    assert_eq!(
        limbs::sub(B, A, MODULUS),
        [0xc22977f2dbf132fc, 0x25f3c008b1b31c20, 0x690770023b699651, 0x195ac6e56c74f76b]
    );
    assert_eq!(limbs::sub([0, 0, 0, 0], [1, 0, 0, 0], MODULUS), Q_MINUS_1);
}

#[test]
fn limbs_double_stays_below_the_modulus() {
    assert_eq!(
        limbs::double(A, MODULUS),
        [0x22446688aaccef10, 0x1e3c5a7896b4d2f0, 0xfdb974130eca8642, 0x2468acf121579bdf]
    );
    assert_eq!(
        limbs::double(B, MODULUS),
        [0x6a76ca578a3257c1, 0xd2a26ff891a940a4, 0x17780e61041c5a86, 0x26b9ec49190fea8d]
    );
    assert_eq!(limbs::double(Q_MINUS_1, MODULUS), Q_MINUS_2);
    // the top bit of every limb that can have it
    let d = [1 << 63, 1 << 63, 1 << 63, 1 << 61];
    assert_eq!(
        limbs::double(d, MODULUS),
        [0xc3df73e9278302b9, 0x687e956e978e3573, 0x47afba497e7ea7a3, 0x0f9bb18d1ece5fd7]
    );
}

#[test]
fn limbs_neg_of_zero_is_zero() {
    assert_eq!(limbs::neg([0, 0, 0, 0], MODULUS), [0, 0, 0, 0]);
    assert_eq!(
        limbs::neg(A, MODULUS),
        [0x2afe58d2831685bf, 0x88633d551d176115, 0xb9738bacfa1c153c, 0x1e2ff7fa5085d239]
    );
    assert_eq!(limbs::neg(Q_MINUS_1, MODULUS), [1, 0, 0, 0]);
}

#[test]
fn limbs_wide_product() {
    assert_eq!(
        limbs::mul_wide(A, B),
        [
            0xf3f2f8ddbb6df220,
            0xe8678bf500963ebc,
            0x1ce7c7862e0d039f,
            0xc6fe2149c9a65b70,
            0x048c26378570f82c,
            0xa4818d32d05b6277,
            0x1a311d2e9d9f076a,
            0x0318f7d92a74cbc8
        ]
    );
    assert_eq!(limbs::square_wide(A), limbs::mul_wide(A, A));
    assert_eq!(limbs::square_wide(B), limbs::mul_wide(B, B));
}

#[test]
fn limbs_square_keeps_every_carry() {
    // the cross products of these limbs carry out of the sixth limb
    let c = [7, (1 << 63) + 5, u64::MAX, 1];
    assert_eq!(
        limbs::square_wide(c),
        [0x31, 0x46, 0x12, 0x4000000000000017, 0x14, 0xfffffffffffffffe, 0x3, 0]
    );
    assert_eq!(
        limbs::square(c, MODULUS, INV),
        [0x1874936f4df969af, 0x8b450317b827b3f6, 0x6f6083963aeb1596, 0x2994490dd5762825]
    );
    assert_eq!(limbs::square(c, MODULUS, INV), limbs::mul(c, c, MODULUS, INV));
}

#[test]
fn limbs_montgomery_product() {
    assert_eq!(
        limbs::mul(A, B, MODULUS, INV),
        [0x3f16d227d0d6fad7, 0xf3e02dc41f02e019, 0x47f46365c8641875, 0x1ef6ad05ff76f4be]
    );
    assert_eq!(
        limbs::square(A, MODULUS, INV),
        [0x373cdbebd50efff0, 0x71f074c145f7e292, 0xba3899f55200a6ea, 0x11cfd4831ba97ae5]
    );
    // the Montgomery form of one is neutral
    assert_eq!(limbs::mul(A, R, MODULUS, INV), A);
    assert_eq!(limbs::mul(R, R, MODULUS, INV), R);
}

#[test]
fn limbs_montgomery_reduction() {
    // reducing a number divides it by 2^256
    assert_eq!(limbs::mont([0, 0, 0, 0, 1, 0, 0, 0], MODULUS, INV), [1, 0, 0, 0]);
    assert_eq!(
        limbs::mont([A[0], A[1], A[2], A[3], 0, 0, 0, 0], MODULUS, INV),
        [0x68a29b45dceb06ad, 0x4c69da0480f20857, 0x41f8add22ef93580, 0x30403194a3adb3fb]
    );
    assert_eq!(limbs::mont(limbs::mul_wide(R2, [1, 0, 0, 0]), MODULUS, INV), R);
}

#[test]
fn limbs_little_fermat() {
    assert_eq!(limbs::little_fermat(MODULUS), Q_MINUS_2);
    assert_eq!(limbs::little_fermat([1, 1, 0, 0]), [u64::MAX, 0, 0, 0]);
}

#[test]
fn limbs_invert() {
    let exp = limbs::little_fermat(MODULUS);
    assert_eq!(limbs::invert([0, 0, 0, 0], exp, R, MODULUS, INV), None);
    let inv = limbs::invert(A, exp, R, MODULUS, INV).unwrap();
    assert_eq!(
        inv,
        [0x1154c33b058abe00, 0x1a7df57106f249ae, 0x99c36479dd1f49d2, 0x19be2e9582bfb295]
    );
    assert_eq!(limbs::mul(A, inv, MODULUS, INV), R);
    // the exponent is read from the top: 2^5 in Montgomery form
    let two = limbs::double(R, MODULUS);
    let thirty_two = limbs::mul([32, 0, 0, 0], R2, MODULUS, INV);
    assert_eq!(limbs::invert(two, [5, 0, 0, 0], R, MODULUS, INV), Some(thirty_two));
}

#[test]
fn limbs_wide_reduction() {
    let r3 = [0xb1cd6dafda1530df, 0x62f210e6a7283db6, 0xef7f0b0c0ada0afb, 0x20fd6e902d592544];
    let t = [
        0x0123456789abcdef,
        0x123456789abcdf00,
        0x23456789abcdf011,
        0x3456789abcdf0122,
        0x456789abcdf01233,
        0x56789abcdf012344,
        0x6789abcdf0123455,
        0x789abcdf01234566,
    ];
    assert_eq!(
        limbs::from_u512(t, R2, r3, MODULUS, INV),
        [0xfba9fbda05b35ede, 0x47c1a0681db2d3a3, 0x41bc72b234d0986a, 0x0f5e7c144cd34ee8]
    );
    assert_eq!(limbs::from_u512([1, 0, 0, 0, 0, 0, 0, 0], R2, r3, MODULUS, INV), R);
    assert_eq!(limbs::from_u512([0, 0, 0, 0, 1, 0, 0, 0], R2, r3, MODULUS, INV), R2);
}

#[test]
fn limbs_words_from_bytes() {
    let mut bytes = [0u8; 64];
    bytes[0] = 1;
    bytes[7] = 0x80;
    bytes[8] = 0xff;
    bytes[63] = 0x7f;
    let t = limbs::words_from_bytes(bytes);
    assert_eq!(t, [0x8000000000000001, 0xff, 0, 0, 0, 0, 0, 0x7f00000000000000]);
}

#[test]
fn limbs_from_bytes_wide() {
    let r3 = [0xb1cd6dafda1530df, 0x62f210e6a7283db6, 0xef7f0b0c0ada0afb, 0x20fd6e902d592544];
    let mut one = [0u8; 64];
    one[0] = 1;
    assert_eq!(limbs::from_bytes_wide(one, R2, r3, MODULUS, INV), R);
    let mut high = [0u8; 64];
    high[32] = 1;
    assert_eq!(limbs::from_bytes_wide(high, R2, r3, MODULUS, INV), R2);
    assert_eq!(limbs::from_bytes_wide([0u8; 64], R2, r3, MODULUS, INV), [0, 0, 0, 0]);
    let words: [u64; 8] = [
        0x0123456789abcdef,
        0x123456789abcdf00,
        0x23456789abcdf011,
        0x3456789abcdf0122,
        0x456789abcdf01233,
        0x56789abcdf012344,
        0x6789abcdf0123455,
        0x789abcdf01234566,
    ];
    let mut bytes = [0u8; 64];
    for k in 0..8 {
        bytes[8 * k..8 * k + 8].copy_from_slice(&words[k].to_le_bytes());
    }
    assert_eq!(
        limbs::from_bytes_wide(bytes, R2, r3, MODULUS, INV),
        [0xfba9fbda05b35ede, 0x47c1a0681db2d3a3, 0x41bc72b234d0986a, 0x0f5e7c144cd34ee8]
    );
}
