//! A verified core for a free-fly camera and per-frame render bookkeeping.
//!
//! All quantities are fixed-point integers carrying six decimal places
//! (micro-units), so the camera math, the input integration and the buffer
//! range model are exact and machine-checked. The GPU backend, the window
//! system and asset decoding are external collaborators; they live outside
//! this library and exchange plain values with it.

pub mod math;
pub mod trig;
pub mod vec3;
pub mod mat4;
pub mod camera;
pub mod camera_controller;
pub mod mesh;
pub mod renderer;
