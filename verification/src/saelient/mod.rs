//! SAE J1939 message layer: parameter groups, signals, diagnostics (J1939-73)
//! and the transport protocol (J1939-21).

pub mod diagnostic;
pub mod id;
pub mod signal;
pub mod slot;
pub mod transport;

pub use id::Pgn;
