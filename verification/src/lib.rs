//! Windowed streaming analysis of program activity graphs: epoch assignment,
//! watermark tracking, per-window aggregation and seed sampling.

pub mod activity;
pub mod aggregator;
pub mod buffer;
pub mod config;
pub mod epoch;
pub mod feeder;
pub mod path_count;
pub mod sampler;
pub mod summary;
pub mod tracker;
