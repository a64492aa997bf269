//! Metrics-sampling engine of a terminal resource monitor: bounded rolling
//! series, exponential smoothing in fixed point, GPU vendor detection,
//! capability negotiation, the per-tick sampler and the loop's gates.

pub mod series;
pub mod smoothing;
pub mod hardware;
pub mod config;
pub mod sampler;
pub mod scheduler;
