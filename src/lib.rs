//! Control logic of a Monte Carlo path tracer for scenes of spheres: how deep
//! a ray is followed, which object along a ray is hit first, which render
//! sizes are accepted, and where each traced pixel lands in the image.

pub mod bounce;
pub mod config;
pub mod nearest;
pub mod pixels;
