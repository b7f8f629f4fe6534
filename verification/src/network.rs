//! The node loop.

pub mod service;
