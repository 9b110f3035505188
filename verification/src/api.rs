//! What the circuit API does for a request, on any circuit store.
pub mod circuits;
