//! Playtime tracking for an externally launched process.

pub mod clock;
pub mod launch;
pub mod laws;
pub mod probe;
pub mod replay;
pub mod rounding;
pub mod session;
