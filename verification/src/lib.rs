//! A micro-benchmark harness for lossless compression codecs.
//!
//! The library measures, for each supported codec, the compression ratio and
//! the wall-clock throughput of repeated compress/decompress cycles over a
//! byte buffer, and renders the aggregated figures as fixed-width table rows.
//! The codecs themselves live in outside crates; every call into one goes
//! through a narrow trusted wrapper, while all bookkeeping, aggregation,
//! arithmetic and rendering is verified.

pub mod aggregate;
pub mod cli;
pub mod codecs;
pub mod harness;
pub mod render;
pub mod report;
pub mod results;
mod timing;
