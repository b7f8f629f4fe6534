//! Route weighting.

pub mod pid;
pub mod rng;
