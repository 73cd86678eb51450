//! Complex numbers and the choices their functions make.

pub mod basic_arithmetic;
pub mod complex;
pub mod log;
pub mod pow;
