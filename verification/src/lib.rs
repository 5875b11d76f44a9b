//! A fixed-function-style 3D transform engine: matrix stacks (modelview,
//! projection, texture), 3x3/4x4 matrix algebra, camera construction and the
//! classic project/unproject pair.
//!
//! All scalars are Q47.16 fixed-point numbers held in `i64`: a value `v`
//! stands for the real number `v / 65536`. Every arithmetic step saturates at
//! the `i64` range, so all operations are total, and every contract states
//! the exact integer result.

pub mod camera;
pub mod fixed;
pub mod matrix;
pub mod program;
pub mod stack;
pub mod trig;
pub mod vector;
