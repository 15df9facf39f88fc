//! An orbit / pan / zoom camera controller.
//!
//! All lengths, angles, sizes and factors are fixed-point integers counted in
//! millionths of a unit (see [`fixed::UNIT`]), so that every rule of the
//! controller can be stated and proved exactly.
pub mod fixed;
pub mod limits;
pub mod smoothing;
pub mod active;
pub mod camera;
pub mod input;
pub mod update;
pub mod geometry;
pub mod motion;
pub mod engine;
