//! Peer reputation.

pub mod sprt;
