//! Verified core of a small real-time mesh viewer.
//!
//! The crate turns an indexed triangle mesh into buffers a graphics device can
//! draw, and keeps the state of the render loop: the camera, the frame clock,
//! the frame-time window and the input flags shared with the pointer observer.
//! Scalars (coordinates, pointer positions) and the camera matrix are type
//! parameters: the crate moves them around and never computes with them.

pub mod animation;
pub mod controller;
pub mod error;
pub mod fps;
pub mod mesh;
pub mod object_loader;
pub mod shared;
pub mod texture;
pub mod webgl;
