//! A small abstraction for dispatching CPU-bound work, offered in two
//! interchangeable strategies with identical surfaces: a pooled strategy
//! (`pooled`) that schedules work on shared fixed-size thread pools, and a
//! serial strategy (`serial`) that runs everything synchronously on the
//! calling thread.

pub mod chunk;
pub mod cpus;
pub mod log2;
pub mod pooled;
pub mod serial;
