//! A verified model of a small interactive point-rendering demo.
//!
//! The library owns the two pieces of logic with actual content: building the
//! projection-view transform for an orbiting camera, and the event-driven
//! scene-state controller that decides, for each window or input event, how
//! the state changes and whether a frame must be drawn.  All scalars are held
//! in signed 64-bit fixed-point form (see [`fixed::FX_ONE`]); a host binary
//! converts them to the graphics backend's floating-point types at the edge.

pub mod camera;
pub mod controller;
pub mod error;
pub mod fixed;
pub mod matrix;
pub mod scene;
pub mod trig;
