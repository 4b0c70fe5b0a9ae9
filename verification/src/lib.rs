//! Optimal ate pairing on the BN254 curve: Montgomery arithmetic on four
//! 64-bit limbs, the tower Fq, Fq2, Fq6, Fq12, the Miller loop and the final
//! exponentiation, with machine-checked contracts.

pub mod fq;
pub mod fq12;
pub mod fq2;
pub mod fq6;
pub mod fr;
pub mod g1;
pub mod g2;
pub mod gt;
pub mod laws;
pub mod limbs;
pub mod math;
pub mod model;
pub mod pairing;
pub mod params;
