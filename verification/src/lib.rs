//! Verified core of a point-cloud renderer for particle simulations.
//!
//! The library plans, step by step, the graphics commands that put a
//! simulation's particles on screen, and keeps the vertex data that mirrors
//! what was last handed to the graphics device. A driver outside the library
//! performs each command and reports back what the device, the simulation or
//! the camera answered.

pub mod error;
pub mod geometry;
pub mod handles;
pub mod program;
pub mod frame;
pub mod render;
pub mod laws;
