//! Observation of a bridge's contract logs: decoding raw logs into typed
//! transfer events and the decisions of the relay and monitoring stream.
pub mod decode;
pub mod laws;
pub mod primitives;
pub mod relay;
pub mod types;
