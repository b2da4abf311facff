//! Arithmetic in GF(2^8), the finite field with 256 elements.
//!
//! A field element is a single byte, read as the coefficient vector of a
//! polynomial of degree at most 7 over GF(2). Addition and subtraction are
//! bitwise XOR; multiplication and division go through discrete-logarithm
//! lookup tables built from a fixed generator and reduction polynomial.

pub mod field;
pub mod laws;
pub mod lemmas;
pub mod model;
mod tables;

pub use field::Gf256;
pub use field::Gf256Error;
