//! A terminal typing-speed test, reduced to its core: a round-based state
//! machine that scores typed words against a sampled word queue, the event
//! stream that drives it, and the derived metrics shown to the user.

pub mod controller;
pub mod dictionary;
pub mod events;
pub mod laws;
pub mod metrics;
pub mod model;
pub mod sampler;
pub mod string_specs;
