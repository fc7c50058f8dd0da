//! Verified core of a benchmark that proves repeated SHA-256 compression
//! of a fixed padded block inside a zero-knowledge circuit.
pub mod circuit;
pub mod padding;
pub mod params;
pub mod pipeline;
pub mod store;
