//! Identity admission.

pub mod hasher;
pub mod motion;
