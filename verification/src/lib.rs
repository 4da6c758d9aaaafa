//! A ray tracer kernel over Q31.32 fixed-point arithmetic.
//!
//! Scalars are `i64` values holding a real number scaled by 2^32, so every
//! arithmetic step has an exact integer meaning that the contracts pin down.
pub mod camera;
pub mod canvas;
pub mod color;
pub mod fx;
pub mod intersections;
pub mod light;
pub mod material;
pub mod matrix;
pub mod plane;
pub mod ray;
pub mod sphere;
pub mod tuple;
pub mod world;
