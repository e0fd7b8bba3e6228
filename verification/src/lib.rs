//! A small ray-tracing engine over exact fixed-point arithmetic.
//!
//! Every scalar is a signed 64-bit count of millionths (see [`fixed`]), so
//! each operation of the engine has a single, provable result. Degenerate
//! inputs that would produce infinities or NaNs in a floating-point engine
//! (division by zero, square roots of negative numbers, overflow) are given
//! defined saturating results instead, documented at each operation.

pub mod camera;
pub mod color;
pub mod fixed;
pub mod laws;
pub mod sampling;
pub mod primitives;
pub mod render;
pub mod scene;
pub mod setup;
pub mod structs;
pub mod trig;
