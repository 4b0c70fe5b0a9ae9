use bn254::fr::Fr;
use rand_core::{Error, RngCore};

/// A generator that counts: byte `i` of its output is `start + step * i`.
struct Counting {
    next: u8,
    step: u8,
}

impl RngCore for Counting {
    fn next_u32(&mut self) -> u32 {
        let mut b = [0u8; 4];
        self.fill_bytes(&mut b);
        u32::from_le_bytes(b)
    }

    fn next_u64(&mut self) -> u64 {
        let mut b = [0u8; 8];
        self.fill_bytes(&mut b);
        u64::from_le_bytes(b)
    }

    fn fill_bytes(&mut self, dest: &mut [u8]) {
        for d in dest.iter_mut() {
            *d = self.next;
            self.next = self.next.wrapping_add(self.step);
        }
    }

    fn try_fill_bytes(&mut self, dest: &mut [u8]) -> Result<(), Error> {
        self.fill_bytes(dest);
        Ok(())
    }
}

const FIRST: [u64; 4] = [
    0xa8915d0ef7b0db56,
    0x86ddc2bf523bbb68,
    0x732f4e9c09a3d68a,
    0x1c78b97ad613f0ce,
];
const SECOND: [u64; 4] = [
    0x8a9b7bf0ed3beb92,
    0x05e374266b41c083,
    0x7db42dff3616f2df,
    0x15afa09c3bf3f0fb,
];

#[test]
fn random_reduces_sixty_four_bytes() {
    let mut rng = Counting { next: 0, step: 1 };
    let x = Fr::random(&mut rng);
    assert_eq!(x.0, FIRST);
    // the generator has moved on by 64 bytes
    assert_eq!(rng.next, 64);
    let mut rng = Counting { next: 11, step: 37 };
    assert_eq!(Fr::random(&mut rng).0, SECOND);
}

#[test]
fn from_bytes_wide_is_what_random_computes() {
    let mut bytes = [0u8; 64];
    for i in 0..64 {
        bytes[i] = i as u8;
    }
    assert_eq!(Fr::from_bytes_wide(bytes).0, FIRST);
    assert_eq!(Fr::from_bytes_wide([0u8; 64]).0, [0, 0, 0, 0]);
    let mut one = [0u8; 64];
    one[0] = 1;
    assert_eq!(Fr::from_bytes_wide(one).0, bn254::fr::R);
}

#[test]
fn scalar_product() {
    let x = Fr(FIRST);
    let y = Fr(SECOND);
    assert_eq!(
        x.mul(y).0,
        [0x4e7cdfc91b780286, 0x5c733124883229ef, 0x9f2b09e4d87923c8, 0x2f9efc030c285683]
    );
    assert_eq!(Fr(FIRST).mul(Fr(bn254::fr::R)).0, FIRST);
}

#[test]
fn random_is_below_the_order() {
    let mut rng = Counting { next: 0xff, step: 0 };
    let x = Fr::random(&mut rng);
    let m = bn254::fr::MODULUS;
    let mut below = false;
    for i in (0..4).rev() {
        if x.0[i] != m[i] {
            below = x.0[i] < m[i];
            break;
        }
    }
    assert!(below);
}

#[test]
fn random_limbs_reduces_the_bytes_drawn() {
    let (r2, r3) = (bn254::fr::R2, bn254::fr::R3);
    let (modulus, inv) = (bn254::fr::MODULUS, bn254::fr::INV);
    let mut rng = Counting { next: 0, step: 1 };
    let x = bn254::limbs::random_limbs(&mut rng, r2, r3, modulus, inv);
    assert_eq!(x, FIRST);
    assert_ne!(x, r2);
    assert_ne!(x, r3);
    let mut bytes = [0u8; 64];
    for i in 0..64 {
        bytes[i] = i as u8;
    }
    assert_eq!(bn254::limbs::from_bytes_wide(bytes, r2, r3, modulus, inv), x);
}
