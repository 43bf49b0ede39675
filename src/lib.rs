//! Topology-aware proof-of-work mining engine: the prime-field arithmetic
//! kernel, CPU placement, telemetry and the candidate coordinator.
pub mod batch;
pub mod config;
pub mod coordinator;
pub mod field;
pub mod nonce;
pub mod pool;
pub mod telemetry;
pub mod topology;
pub mod worker;
