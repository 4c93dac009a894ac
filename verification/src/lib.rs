//! A small scene library: a cubic Bezier curve that a visual entity is moved
//! along each frame, the scene that holds it (cube, light, ground, camera),
//! and a counter/greeting object meant to be surfaced to a UI layer.
//!
//! All geometry is exact integer arithmetic: coordinates are fixed-point
//! values chosen by the caller, and curve parameters are rational numbers
//! given as a numerator and a denominator.

pub mod curve;
pub mod qobject;
pub mod scene;
pub mod text;
