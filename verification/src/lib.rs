//! A real-time rendering core: IEEE-754 single-precision linear algebra
//! (vectors, matrices, quaternions), a first-person camera, an input
//! accumulator, and a render-pass configuration/execution engine that
//! compiles declarative pass descriptions into backend command sequences.
//!
//! Scalars are carried as raw IEEE-754 binary32 bit patterns; the four
//! rounding arithmetic operations and the square root and trigonometric
//! functions are delegated to IEEE-conformant software implementations,
//! while comparisons, negation and all structural operations are verified
//! bit-level code.

pub mod scalar;
pub mod vec_lib;
pub mod webgl_utils;
pub mod input;
pub mod render_passes;
