//! Numbers: doubles as bit patterns, complex pairs of them, and the shape of
//! polynomials.

pub mod binary64;
pub mod complex;
pub mod polynomial;
