//! Q15 fixed-point numbers with saturating arithmetic, and the Q31
//! accumulator that holds the exact product of two of them.
//!
//! A [`Q15`] is a signed 16-bit integer read as a fraction with 15 bits after
//! the binary point, so it stands for a value in `[-1, 1 - 2^-15]`. Every
//! operation either is exact or saturates at the ends of that range; none
//! wraps around.

pub mod fixed;
pub mod laws;
pub mod model;

pub use fixed::Q15;
pub use fixed::Q31;
