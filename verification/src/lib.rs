//! Trust and routing decisions of a peer-to-peer node, verified.
//!
//! The crate holds the discrete part of each engine: what is admitted, what is
//! rejected, which bytes are committed to, which jitter step is drawn and what
//! the node loop does with an event. Measurements on real-valued sensor and
//! traffic data are made by the caller and handed in as plain values.

pub mod error;
pub mod ffi;
pub mod identity;
pub mod judge;
pub mod network;
pub mod router;

pub use error::AeonError;
