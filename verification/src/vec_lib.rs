//! Value-type linear algebra: 2/3/4-component vectors, 2x2/3x3/4x4
//! matrices, and quaternions over IEEE-754 binary32 scalars.

pub mod vec2;
pub mod vec3;
pub mod vec4;
pub mod quat;
pub mod mat2;
pub mod mat3;
pub mod mat4;
