//! Incrementally built rack-setup configuration: an accumulator of operator
//! input that is validated on each update and assembled into a request.

pub mod types;
pub mod network;
pub mod rss_config;
