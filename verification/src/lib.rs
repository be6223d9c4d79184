//! An orbiting look-at camera: the camera model, the key-driven motion
//! controller and the flat view-projection record handed to a renderer.
//!
//! Every real number in this crate is an IEEE-754 binary32 value held by its
//! bit pattern in a `u32`, so that contracts can speak of it exactly. The
//! vector and matrix arithmetic itself is glam's.

pub mod scalar;
pub mod linalg;
pub mod camera;
pub mod input;
pub mod controller;
