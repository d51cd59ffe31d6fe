//! A low-latency transport for streaming structured market-data events
//! between a single producer and a single consumer over a fixed-capacity
//! ring buffer, with a cooperative termination sentinel.

pub mod event;
pub mod loops;
pub mod transport;
