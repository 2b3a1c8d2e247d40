//! Consensus-parameter registry: an immutable mapping from a chain network
//! identifier to the numeric constants that govern block validation and
//! proof-of-work difficulty retargeting on that network.

pub mod params;
pub mod uint;
