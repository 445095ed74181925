//! rench: the computing core of an HTTP benchmarking tool, verified with Verus.

pub mod cli;
pub mod duration;
pub mod text;
pub mod histogram;
pub mod stats;
pub mod counter;
pub mod request;
pub mod engine;
pub mod reporter;
