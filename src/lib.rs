//! Measurement-and-interpolation engine of a floorplan WiFi survey: a
//! time-boxed throughput sampler, a multi-run aggregator and a grid
//! interpolator over integer rates (bits per second) and integer times
//! (microseconds).
pub mod aggregator;
pub mod interpolate;
pub mod sampler;
pub mod stats;
