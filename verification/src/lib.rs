//! Verified core of an interactive escape-time fractal viewer.
//!
//! The viewer maps each pixel of a frame to a point of the complex plane,
//! counts how long the quadratic recurrence stays bounded there, and turns
//! the count into a colour. The arithmetic is that of a [`scalar::Scalar`],
//! which the embedding program supplies; windows, drawing and input devices
//! are left to that program as well.

pub mod scalar;
pub mod viewport;
pub mod color;
pub mod escape;
pub mod frame;
pub mod input;
pub mod plane;
pub mod viewer;
