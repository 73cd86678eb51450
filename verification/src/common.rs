//! What is not a number: a helper on remainders, and the elements of a
//! drawing.

pub mod grapheme_element;
pub mod utils;
