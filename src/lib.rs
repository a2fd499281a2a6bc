//! Orchestration core of a small 3D game scaffold: actor descriptions, an
//! entity registry, and the loading and gameplay controllers.
//!
//! Floating-point values never enter the verified code: each coordinate,
//! ratio or angle is carried as the IEEE-754 binary32 bit pattern of the
//! `f32` it stands for, and the host converts with `f32::to_bits` /
//! `f32::from_bits`.
pub mod actors;
pub mod gameplay;
pub mod loading;
pub mod registry;
