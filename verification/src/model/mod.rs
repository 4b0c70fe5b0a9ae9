//! The mathematical model that the contracts speak of: the prime field and the
//! extension tower as tuples of integers, the twist, the Miller loop and the
//! final exponentiation, with the lemmas that the laws rest on.

pub mod base;
pub mod certificate;
pub mod chord_tangent;
pub mod coefficients;
pub mod curve;
pub mod cyclotomic;
pub mod dodecic;
pub mod exponents;
pub mod field;
pub mod final_exp;
pub mod frobenius;
pub mod homomorphism;
pub mod jacobian;
pub mod norm;
pub mod opposite;
pub mod opposite_g2;
pub mod pairing;
pub mod power;
pub mod prime;
pub mod quadratic;
pub mod sextic;
pub mod xi_power;
